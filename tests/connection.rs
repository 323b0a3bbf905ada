use std_stupid_http::compose::{FileOutcome, ServerFunction};
use std_stupid_http::connection::{Action, HttpConnection, Next, Phase, ServerConfig, WsEvent};
use std_stupid_http::response::compose_server_error;
use std_stupid_http::websocket::WebSocketOpCode;

fn connection(mode: ServerFunction, keep_alive: bool, now: u64) -> HttpConnection {
    let config = ServerConfig::new(mode, None, None, 2, keep_alive).unwrap();
    HttpConnection::new(&config, now)
}

const GET: &[u8] = b"GET / HTTP/1.1\r\nHost: x\r\n\r\n";

#[test]
fn idle_connection_is_closed_before_reading() {
    let mut c = connection(ServerFunction::Debug, true, 1000);
    assert!(!c.close_if_idle(8000));
    assert_eq!(c.phase(), Phase::Http);
    assert!(c.close_if_idle(8001));
    assert_eq!(c.phase(), Phase::Closed);
}

#[test]
fn request_resets_idle_timer() {
    let mut c = connection(ServerFunction::Debug, true, 0);
    match c.handle_http_read(GET, 6000) {
        Action::Send(_, Next::KeepOpen) => {}
        other => panic!("{:?}", other),
    }
    assert_eq!(c.last_activity(), 6000);
    assert!(!c.close_if_idle(12000));
    assert_eq!(c.phase(), Phase::Http);
    assert!(c.close_if_idle(13001));
}

#[test]
fn keep_alive_off_closes_after_response() {
    let mut c = connection(ServerFunction::Debug, false, 0);
    match c.handle_http_read(GET, 10) {
        Action::Send(b, Next::Close) => assert!(b.starts_with(b"HTTP/1.1 200 OK\r\n")),
        other => panic!("{:?}", other),
    }
    assert_eq!(c.phase(), Phase::Closed);
}

#[test]
fn empty_read_gets_error_and_close() {
    let mut c = connection(ServerFunction::Debug, true, 0);
    assert_eq!(c.handle_http_read(b"", 5), Action::Send(compose_server_error(), Next::Close));
    assert_eq!(c.phase(), Phase::Closed);
}

#[test]
fn parse_failure_keeps_connection_without_resetting_timer() {
    let mut c = connection(ServerFunction::Debug, true, 0);
    assert_eq!(
        c.handle_http_read(b"garbage", 100),
        Action::Send(compose_server_error(), Next::KeepOpen)
    );
    assert_eq!(c.last_activity(), 0);
    assert_eq!(
        c.handle_http_read(b"garbage", 7001),
        Action::Send(compose_server_error(), Next::Close)
    );
}

#[test]
fn serve_file_goes_through_the_caller() {
    let mut c = connection(ServerFunction::ServeFile, true, 0);
    assert_eq!(
        c.handle_http_read(b"GET /a.txt HTTP/1.1\r\n\r\n", 50),
        Action::ReadFile(b"./a.txt".to_vec())
    );
    let (b, next) = c.finish_file(&FileOutcome::Contents(b"hi".to_vec()));
    assert!(b.ends_with(b"Content-Length: 2\r\n\r\nhi"));
    assert_eq!(next, Next::KeepOpen);
}

fn masked(op: u8, payload: &[u8]) -> Vec<u8> {
    let key = [9u8, 8, 7, 6];
    let mut b = vec![0x80 | op, 0x80 | payload.len() as u8];
    b.extend_from_slice(&key);
    for (i, x) in payload.iter().enumerate() {
        b.push(x ^ key[i % 4]);
    }
    b
}

#[test]
fn upgrade_then_frames() {
    let mut c = connection(ServerFunction::Debug, true, 0);
    let raw = b"GET /chat HTTP/1.1\r\nConnection: Upgrade\r\nSec-WebSocket-Key: dGhlIHNhbXBsZSBub25jZQ==\r\nSec-WebSocket-Version: 13\r\n\r\n";
    match c.handle_http_read(raw, 10) {
        Action::Send(b, Next::Upgrade) => assert!(b.starts_with(b"HTTP/1.1 101 ")),
        other => panic!("{:?}", other),
    }
    assert_eq!(c.phase(), Phase::WebSocket);

    let text = masked(1, b"hello");
    c.receive_websocket(&text[..3], 20);
    assert_eq!(c.next_websocket_event(), WsEvent::NeedMore);
    c.receive_websocket(&text[3..], 30);
    assert_eq!(c.last_activity(), 30);
    assert_eq!(c.next_websocket_event(), WsEvent::Deliver(WebSocketOpCode::Text, b"hello".to_vec()));
    assert_eq!(c.next_websocket_event(), WsEvent::NeedMore);

    let mut two = masked(9, b"p");
    two.extend(masked(8, b""));
    c.receive_websocket(&two, 40);
    assert_eq!(c.next_websocket_event(), WsEvent::Ping(b"p".to_vec()));
    assert_eq!(c.next_websocket_event(), WsEvent::Close);
    assert_eq!(c.phase(), Phase::Closed);
}

#[test]
fn unmasked_client_frame_closes() {
    let mut c = connection(ServerFunction::Debug, true, 0);
    let raw = b"GET / HTTP/1.1\r\nConnection: Upgrade\r\nSec-WebSocket-Key: abc\r\nSec-WebSocket-Version: 13\r\n\r\n";
    c.handle_http_read(raw, 1);
    c.receive_websocket(&[0x81, 1, b'x'], 2);
    assert_eq!(c.next_websocket_event(), WsEvent::Close);
    assert_eq!(c.phase(), Phase::Closed);
}

#[test]
fn websocket_without_keep_alive_closes_after_a_read() {
    let mut c = connection(ServerFunction::Debug, false, 0);
    let raw = b"GET /chat HTTP/1.1\r\nConnection: Upgrade\r\nSec-WebSocket-Key: abc\r\nSec-WebSocket-Version: 13\r\n\r\n";
    match c.handle_http_read(raw, 1) {
        Action::Send(_, Next::Upgrade) => {}
        other => panic!("{:?}", other),
    }
    c.receive_websocket(&masked(1, b"hi"), 2);
    assert_eq!(c.next_websocket_event(), WsEvent::Deliver(WebSocketOpCode::Text, b"hi".to_vec()));
    assert_eq!(c.next_websocket_event(), WsEvent::Close);
    assert_eq!(c.phase(), Phase::Closed);
}

#[test]
fn websocket_idle_connection_is_closed() {
    let mut c = connection(ServerFunction::Debug, true, 0);
    let raw = b"GET /chat HTTP/1.1\r\nConnection: Upgrade\r\nSec-WebSocket-Key: abc\r\nSec-WebSocket-Version: 13\r\n\r\n";
    c.handle_http_read(raw, 100);
    assert!(!c.close_if_idle(7100));
    c.receive_websocket(&masked(1, b"x"), 7000);
    assert!(!c.close_if_idle(14000));
    assert!(c.close_if_idle(14001));
    assert_eq!(c.phase(), Phase::Closed);
}
