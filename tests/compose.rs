use std_stupid_http::compose::{
    compose_file_response, compose_http_response, FileOutcome, ResponsePlan, ServerFunction,
};
use std_stupid_http::request::{parse_http_connection, ParseReturnData};

fn request(raw: &str) -> ParseReturnData {
    parse_http_connection(raw.as_bytes()).unwrap()
}

fn respond(mode: ServerFunction, keep_alive: bool, raw: &str) -> String {
    match compose_http_response(mode, keep_alive, &request(raw)) {
        ResponsePlan::Respond(b) => String::from_utf8(b).unwrap(),
        ResponsePlan::ReadFile(p) => panic!("asked for {:?}", p),
    }
}

#[test]
fn serve_file_rejects_traversal() {
    for raw in ["GET /../etc/passwd HTTP/1.1\r\n\r\n", "GET /./secret HTTP/1.1\r\n\r\n"] {
        let out = respond(ServerFunction::ServeFile, true, raw);
        assert!(out.starts_with("HTTP/1.1 403 Forbidden\r\n"), "{}", out);
    }
}

#[test]
fn serve_file_only_get() {
    let out = respond(ServerFunction::ServeFile, false, "POST /a.txt HTTP/1.1\r\n\r\n");
    assert!(out.starts_with("HTTP/1.1 405 Method Not Allowed\r\n"));
    assert!(out.contains("Connection: close\r\n"));
}

#[test]
fn serve_file_asks_for_the_file() {
    let plan = compose_http_response(
        ServerFunction::ServeFile,
        true,
        &request("GET /docs/a.txt HTTP/1.1\r\n\r\n"),
    );
    assert_eq!(plan, ResponsePlan::ReadFile(b"./docs/a.txt".to_vec()));
}

#[test]
fn serve_file_missing_is_404() {
    let out = String::from_utf8(compose_file_response(true, &FileOutcome::NotFound)).unwrap();
    assert!(out.starts_with("HTTP/1.1 404 Not Found\r\n"));
    assert!(out.ends_with("Content-Length: 0\r\n\r\n"));
    let out = String::from_utf8(compose_file_response(true, &FileOutcome::ReadFailed)).unwrap();
    assert!(out.starts_with("HTTP/1.1 500 Internal Server Error\r\n"));
}

#[test]
fn serve_file_contents_and_length() {
    let contents = b"line one\nline two\n".to_vec();
    let out = compose_file_response(false, &FileOutcome::Contents(contents.clone()));
    let text = String::from_utf8(out).unwrap();
    assert_eq!(
        text,
        "HTTP/1.1 200 OK\r\nServer: std-stupid-http\r\nContent-Type: text/html\r\n\
         Accept-Ranges: bytes\r\nCache-Control: no-cache\r\nConnection: close\r\n\
         Content-Length: 18\r\n\r\nline one\nline two\n"
    );
}

#[test]
fn debug_mode_lists_headers() {
    let out = respond(
        ServerFunction::Debug,
        true,
        "GET / HTTP/1.1\r\nHost: here\r\nAccept: all\r\n\r\n",
    );
    let body = "<html>Header Name: Host <br/>Header Content: here <br/><br/>\
                Header Name: Accept <br/>Header Content: all <br/><br/><html/>";
    let expected = format!(
        "HTTP/1.1 200 OK\r\nServer: std-stupid-http\r\nContent-Type: text/html\r\n\
         Accept-Ranges: bytes\r\nCache-Control: no-cache\r\nKeep-Alive: 7s\r\n\
         Content-Length: {}\r\n\r\n{}",
        body.len(),
        body
    );
    assert_eq!(out, expected);
    let dump = respond(
        ServerFunction::DumpRequest,
        true,
        "GET / HTTP/1.1\r\nHost: here\r\nAccept: all\r\n\r\n",
    );
    assert_eq!(dump, expected);
}
