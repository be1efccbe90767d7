use data_processing::config::Config;
use data_processing::handler::{Action, Event, Handler, Phase};

/// Drive one whole request through the handler, the way the server does:
/// perform each returned action and feed its outcome back in. Returns the
/// URL that was fetched, if any fetch was requested, and the response text.
fn run_request(
    addr: Option<&str>,
    processing_ok: bool,
    body: Option<Vec<u8>>,
) -> (Option<String>, String) {
    let config = addr.map(|a| Config::new(a.to_string()));
    let mut handler = Handler::new(config);
    assert!(handler.phase() == Phase::Ready);
    let mut fetched: Option<String> = None;
    let mut action = handler.step(Event::Arrived);
    loop {
        match action {
            Action::Delay => {
                assert!(handler.phase() == Phase::Delaying);
                action = handler.step(Event::DelayDone(processing_ok));
            }
            Action::Fetch(url) => {
                assert!(handler.phase() == Phase::Fetching);
                assert!(fetched.is_none(), "a request fetches at most once");
                fetched = Some(url);
                action = handler.step(Event::FetchDone(body.clone()));
            }
            Action::Respond(text) => {
                assert!(handler.phase() == Phase::Done);
                return (fetched, text);
            }
        }
    }
}

#[test]
fn valid_body_returned_verbatim() {
    let (fetched, response) = run_request(
        Some("http://calculator:8080"),
        true,
        Some(b"72.5".to_vec()),
    );
    assert_eq!(
        fetched.as_deref(),
        Some("http://calculator:8080/measureTemperature")
    );
    assert_eq!(response, "72.5");
}

#[test]
fn empty_body_returned_verbatim() {
    let (_, response) = run_request(Some("http://calculator:8080"), true, Some(Vec::new()));
    assert_eq!(response, "");
}

#[test]
fn missing_address_returns_error_text() {
    let (fetched, response) = run_request(None, true, Some(b"72.5".to_vec()));
    assert_eq!(fetched, None);
    assert_eq!(response, "Temperature error");
}

#[test]
fn unreachable_downstream_returns_error_text() {
    let (fetched, response) = run_request(Some("http://calculator:8080"), true, None);
    assert!(fetched.is_some());
    assert_eq!(response, "Temperature error");
}

#[test]
fn non_utf8_body_returns_error_text() {
    let (_, response) = run_request(
        Some("http://calculator:8080"),
        true,
        Some(vec![0xff, 0xfe, 0x35]),
    );
    assert_eq!(response, "Temperature error");
}

#[test]
fn failed_processing_returns_error_text() {
    let (fetched, response) = run_request(Some("http://calculator:8080"), false, None);
    assert_eq!(fetched, None, "no fetch after a failed processing signal");
    assert_eq!(response, "Temperature error");
}

#[test]
fn repeated_requests_answered_identically() {
    let first = run_request(Some("http://calculator:8080"), true, Some(b"68.2".to_vec()));
    let second = run_request(Some("http://calculator:8080"), true, Some(b"68.2".to_vec()));
    assert_eq!(first, second);
}

#[test]
fn delay_precedes_fetch() {
    let config = Config::new("http://calculator:8080".to_string());
    let mut handler = Handler::new(Some(config));
    let first = handler.step(Event::Arrived);
    assert!(
        matches!(first, Action::Delay),
        "the first action of every request is the delay"
    );
    let second = handler.step(Event::DelayDone(true));
    assert!(matches!(second, Action::Fetch(_)));
}
