//! Response texts: decoding a downstream body, and the fixed error text.

use vstd::prelude::*;
use vstd::utf8::{decode_utf8, valid_utf8};

verus! {

/// The fixed text answered whenever handling a request fails.
pub open spec fn error_text() -> Seq<char> {
    "Temperature error"@
}

/// The text answered for a downstream body: the body decoded as UTF-8,
/// verbatim, or the error text when the bytes are not valid UTF-8.
pub open spec fn body_text(body: Seq<u8>) -> Seq<char> {
    if valid_utf8(body) {
        decode_utf8(body)
    } else {
        error_text()
    }
}

/// The fixed error response.
pub fn temperature_error() -> (r: String)
    ensures
        r@ == error_text(),
{
    "Temperature error".to_owned()
}

/// Relies on String::from_utf8: it returns Ok exactly when the bytes are
/// valid UTF-8, and the string it returns holds their decoding.
#[verifier::external_body]
fn bytes_to_string(bytes: Vec<u8>) -> (r: Option<String>)
    ensures
        r is Some <==> valid_utf8(bytes@),
        r matches Some(s) ==> s@ == decode_utf8(bytes@),
{
    String::from_utf8(bytes).ok()
}

/// Decode a downstream body into the response text: the decoded bytes
/// verbatim, or the error text when they are not valid UTF-8.
pub fn decode_body(bytes: Vec<u8>) -> (r: String)
    ensures
        r@ == body_text(bytes@),
{
    match bytes_to_string(bytes) {
        Some(s) => s,
        None => temperature_error(),
    }
}

} // verus!
