use std_stupid_http::errors::{RequestError, StdStupidError};
use std_stupid_http::numeral::is_float_literal;
use std_stupid_http::request::{parse_http_connection, parse_http_request_type, HttpRequestType};

fn parse_err(raw: &[u8]) -> RequestError {
    match parse_http_connection(raw) {
        Err(StdStupidError::Request(e)) => e,
        other => panic!("expected a request error, got {:?}", other),
    }
}

#[test]
fn request_line_round_trip() {
    let tokens = [
        ("GET", HttpRequestType::GET),
        ("POST", HttpRequestType::POST),
        ("OPTIONS", HttpRequestType::OPTIONS),
        ("HEAD", HttpRequestType::HEAD),
        ("PUT", HttpRequestType::PUT),
        ("DELETE", HttpRequestType::DELETE),
        ("TRACE", HttpRequestType::TRACE),
        ("CONNECT", HttpRequestType::CONNECT),
    ];
    for (token, method) in tokens {
        let line = format!("{} /index.txt HTTP/1.1\r\n\r\n", token);
        let d = parse_http_connection(line.as_bytes()).unwrap();
        assert_eq!(d.http_request_type, method);
        assert_eq!(d.request_path, b"/index.txt".to_vec());
        assert_eq!(d.http_version, b"1.1".to_vec());
    }
}

#[test]
fn request_headers_are_split_and_trimmed() {
    let raw = b"GET / HTTP/1.1\r\nHost:  localhost:8080 \r\nAccept: */*\r\n\r\n";
    let d = parse_http_connection(raw).unwrap();
    assert_eq!(d.headers.len(), 2);
    assert_eq!(d.headers.get(b"Host"), Some(&b"localhost8080"[..]));
    assert_eq!(d.headers.get(b"Accept"), Some(&b"*/*"[..]));
    assert_eq!(d.headers.entry(0).0, b"Host");
    assert!(d.body.is_empty());
}

#[test]
fn request_duplicate_header_last_wins() {
    let raw = b"GET / HTTP/1.0\r\nX-A: 1\r\nX-B: 2\r\nX-A: 3\r\n\r\n";
    let d = parse_http_connection(raw).unwrap();
    assert_eq!(d.headers.len(), 2);
    assert_eq!(d.headers.get(b"X-A"), Some(&b"3"[..]));
    assert_eq!(d.headers.entry(0), (&b"X-A"[..], &b"3"[..]));
}

#[test]
fn request_form_post_takes_body() {
    let raw = b"POST /form HTTP/1.1\r\nContent-Type: application/x-www-form-urlencoded\r\n\r\na=1&b=2";
    let d = parse_http_connection(raw).unwrap();
    assert_eq!(d.http_request_type, HttpRequestType::POST);
    assert_eq!(d.body, b"a=1&b=2".to_vec());
}

#[test]
fn request_other_post_has_no_body() {
    let raw = b"POST /form HTTP/1.1\r\nContent-Type: text/plain\r\n\r\na=1&b=2";
    let d = parse_http_connection(raw).unwrap();
    assert!(d.body.is_empty());
    let raw = b"GET /form HTTP/1.1\r\nContent-Type: application/x-www-form-urlencoded\r\n\r\na=1";
    assert!(parse_http_connection(raw).unwrap().body.is_empty());
}

#[test]
fn request_unknown_method_is_invalid_not_error() {
    let d = parse_http_connection(b"BREW /pot HTTP/1.1\r\n\r\n").unwrap();
    assert_eq!(d.http_request_type, HttpRequestType::INVALID);
    assert_eq!(d.request_path, b"/pot".to_vec());
}

#[test]
fn request_errors() {
    assert_eq!(parse_err(b""), RequestError::Empty);
    assert_eq!(parse_err(b"GET index\r\n\r\n"), RequestError::MissingMethodSeparator);
    assert_eq!(parse_err(b"GET /index xttp\r\n"), RequestError::MissingVersionMarker);
    assert_eq!(parse_err(b"GET /index HTTP1.1\r\n"), RequestError::MissingVersionSeparator);
    assert_eq!(parse_err(b"GET /index HTTP/one\r\n"), RequestError::InvalidVersion);
}

#[test]
fn request_path_stops_at_letter_h() {
    let d = parse_http_connection(b"GET /Hello HTTP/1.1\r\n").unwrap();
    assert_eq!(d.request_path, b"/".to_vec());
}

#[test]
fn method_token_is_trimmed() {
    assert_eq!(parse_http_request_type(b"  PUT "), HttpRequestType::PUT);
    assert_eq!(parse_http_request_type(b"get"), HttpRequestType::INVALID);
}

#[test]
fn float_literals() {
    for ok in ["1.1", "2", "1.", ".5", "+1.0", "-3e5", "1E-2", "inf", "-Infinity", "NaN"] {
        assert!(is_float_literal(ok.as_bytes()), "{}", ok);
        assert!(ok.parse::<f32>().is_ok());
    }
    for bad in ["", ".", "1.1.1", "e5", "1e", "one", "1 ", "+"] {
        assert!(!is_float_literal(bad.as_bytes()), "{}", bad);
        assert!(bad.parse::<f32>().is_err());
    }
}
