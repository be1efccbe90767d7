//! Downstream-service configuration: the base address and the URL built
//! from it.

use vstd::prelude::*;
use vstd::string::StringExecFns;

verus! {

/// The fixed path appended to the configured base address.
pub open spec fn measure_path() -> Seq<char> {
    "/measureTemperature"@
}

/// The downstream URL for a base address: the address followed by the fixed
/// path, by plain concatenation — no normalization of slashes or anything
/// else.
pub open spec fn measure_url_spec(addr: Seq<char>) -> Seq<char> {
    addr + measure_path()
}

/// Configuration of the downstream temperature service: its base address,
/// as the environment supplied it.
pub struct Config {
    temp_calculator_addr: String,
}

impl Config {
    /// The configured base address.
    pub closed spec fn addr_spec(&self) -> Seq<char> {
        self.temp_calculator_addr@
    }

    pub fn new(temp_calculator_addr: String) -> (c: Config)
        ensures
            c.addr_spec() == temp_calculator_addr@,
    {
        Config { temp_calculator_addr }
    }

    pub fn addr(&self) -> (a: &String)
        ensures
            a@ == self.addr_spec(),
    {
        &self.temp_calculator_addr
    }

    /// The URL the downstream fetch goes to: exactly the configured address
    /// with the fixed path appended.
    pub fn measure_url(&self) -> (u: String)
        ensures
            u@ == measure_url_spec(self.addr_spec()),
    {
        self.temp_calculator_addr.clone().concat("/measureTemperature")
    }
}

} // verus!
