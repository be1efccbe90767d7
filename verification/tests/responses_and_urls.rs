use data_processing::config::Config;
use data_processing::response::{decode_body, temperature_error};

#[test]
fn url_is_plain_concatenation() {
    let config = Config::new("http://calculator:8080".to_string());
    assert_eq!(
        config.measure_url(),
        "http://calculator:8080/measureTemperature"
    );
}

#[test]
fn url_keeps_duplicate_slashes() {
    let config = Config::new("http://calculator:8080/".to_string());
    assert_eq!(
        config.measure_url(),
        "http://calculator:8080//measureTemperature"
    );
}

#[test]
fn url_of_empty_address_is_the_path_alone() {
    let config = Config::new(String::new());
    assert_eq!(config.measure_url(), "/measureTemperature");
}

#[test]
fn address_is_kept_as_given() {
    let config = Config::new("calculator.internal".to_string());
    assert_eq!(config.addr(), "calculator.internal");
}

#[test]
fn decode_body_keeps_valid_utf8() {
    assert_eq!(decode_body(b"25.0".to_vec()), "25.0");
    assert_eq!(decode_body("21.5\u{00b0}".as_bytes().to_vec()), "21.5\u{00b0}");
    assert_eq!(decode_body(Vec::new()), "");
}

#[test]
fn decode_body_rejects_invalid_utf8() {
    assert_eq!(decode_body(vec![0xc3, 0x28]), "Temperature error");
    assert_eq!(decode_body(vec![0xff]), "Temperature error");
}

#[test]
fn error_text_is_fixed() {
    assert_eq!(temperature_error(), "Temperature error");
}
