use textsynth::error::Error;

fn bad_request() -> Error {
    Error::new(400, "Bad Request".to_string()).unwrap()
}

#[test]
fn test_error_display() {
    assert_eq!(bad_request().to_string(), "400 Bad Request, Bad Request");
}

#[test]
fn test_error_debug() {
    assert_eq!(bad_request().debug_string(), "Error { status_code: 400, error: \"Bad Request\" }");
}

#[test]
fn test_status_code() {
    let _ = bad_request().status_code();
}

#[test]
fn test_message() {
    let _ = bad_request().message();
}

#[test]
fn status_code_is_the_http_code() {
    let code = bad_request().status_code().unwrap();
    assert_eq!(code.as_u16(), 400);
    assert_eq!(bad_request().status(), 400);
    assert_eq!(bad_request().message(), "Bad Request");
}

#[test]
fn zero_status_is_rejected() {
    assert!(Error::new(0, "nothing".to_string()).is_none());
}

#[test]
fn status_outside_http_range_has_no_code() {
    let low = Error::new(99, "low".to_string()).unwrap();
    assert!(low.status_code().is_none());
    assert_eq!(low.to_string(), "99, low");
    let high = Error::new(1000, "high".to_string()).unwrap();
    assert!(high.status_code().is_none());
    assert_eq!(high.to_string(), "1000, high");
    assert!(Error::new(100, String::new()).unwrap().status_code().is_some());
    assert!(Error::new(999, String::new()).unwrap().status_code().is_some());
}

#[test]
fn display_uses_canonical_reason() {
    let e = Error::new(404, "no such engine".to_string()).unwrap();
    assert_eq!(e.to_string(), "404 Not Found, no such engine");
    let unknown = Error::new(599, "odd".to_string()).unwrap();
    assert_eq!(unknown.to_string(), "599 <unknown status code>, odd");
}

#[test]
fn debug_escapes_the_message() {
    let e = Error::new(500, "say \"hi\"\n".to_string()).unwrap();
    assert_eq!(e.debug_string(), "Error { status_code: 500, error: \"say \\\"hi\\\"\\n\" }");
    let clone = e.clone();
    assert!(clone == e);
}
