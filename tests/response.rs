use std_stupid_http::response::{add_header, compose_server_error, HttpResponseStruct};
use std_stupid_http::status::HttpStatusCode;

fn status_line(code: u16) -> String {
    let mut r = HttpResponseStruct::new();
    r.set_status(code);
    let bytes = r.get_response();
    let text = String::from_utf8(bytes).unwrap();
    text.split("\r\n").next().unwrap().to_string()
}

#[test]
fn status_lines_name_code_and_reason() {
    assert_eq!(status_line(200), "HTTP/1.1 200 OK");
    assert_eq!(status_line(404), "HTTP/1.1 404 Not Found");
    assert_eq!(status_line(101), "HTTP/1.1 101 Switching Protocols");
    assert_eq!(status_line(418), "HTTP/1.1 418 I'm a teapot");
    assert_eq!(status_line(511), "HTTP/1.1 511 Network Authentication Required");
}

#[test]
fn status_line_of_unknown_code() {
    assert_eq!(status_line(599), "HTTP/1.1 599 Unknown(599)");
    assert_eq!(status_line(999), "HTTP/1.1 999 Unknown(999)");
    assert_eq!(status_line(7), "HTTP/1.1 7 Unknown(7)");
    assert_eq!(status_line(0), "HTTP/1.1 0 Unknown(0)");
    assert_eq!(status_line(65535), "HTTP/1.1 65535 Unknown(65535)");
    assert_eq!(HttpStatusCode::from(299), HttpStatusCode::Unknown(299));
}

#[test]
fn status_table_round_trips_codes() {
    let mut known = 0;
    for code in 0..=600u16 {
        let s = HttpStatusCode::from(code);
        assert_eq!(s.code(), code);
        if !matches!(s, HttpStatusCode::Unknown(_)) {
            known += 1;
            assert_ne!(s.reason_phrase(), "Unknown");
        }
    }
    assert_eq!(known, 62);
    assert_eq!(HttpStatusCode::from(500), HttpStatusCode::InternalServerError);
    assert_eq!(HttpStatusCode::from(200), HttpStatusCode::OK);
}

#[test]
fn server_error_response_exact_bytes() {
    let expected = "HTTP/1.1 500 Internal Server Error\r\n\
        Server: std-stupid-http\r\n\
        Content-Type: text/html\r\n\
        Accept-Ranges: bytes\r\n\
        Cache-Control: no-cache\r\n\
        Content-Length: 0\r\n\
        \r\n";
    assert_eq!(String::from_utf8(compose_server_error()).unwrap(), expected);
}

#[test]
fn response_has_content_length_and_body() {
    let mut r = HttpResponseStruct::new();
    r.set_status(200);
    r.add_header(b"X-Test: yes");
    r.set_body(b"hello ");
    r.set_body(b"world");
    let out = String::from_utf8(r.get_response()).unwrap();
    assert_eq!(
        out,
        "HTTP/1.1 200 OK\r\nX-Test: yes\r\nContent-Length: 11\r\n\r\nhello world"
    );
    assert_eq!(r.get_response(), b"Content-Length: 0\r\n\r\n".to_vec());
}

#[test]
fn free_add_header_appends() {
    assert_eq!(add_header(b"B: 2", b"A: 1".to_vec()), b"A: 1B: 2".to_vec());
}
