use std_stupid_http::handshake::{
    accept_from_digest, hash_text_sha1, is_websocket_upgrade, websocket_accept_key,
    websocket_handshake, Handshake,
};
use std_stupid_http::request::parse_http_connection;
use std_stupid_http::response::compose_server_error;

#[test]
fn accept_key_of_rfc_sample() {
    let accept = websocket_accept_key(b"dGhlIHNhbXBsZSBub25jZQ==");
    assert_eq!(accept, b"s3pPLMBiTxaQ9kYGzzhZRbK+xOo=".to_vec());
}

#[test]
fn sha1_of_abc() {
    let d = hash_text_sha1(b"abc").unwrap();
    assert_eq!(
        d,
        vec![
            0xa9, 0x99, 0x3e, 0x36, 0x47, 0x06, 0x81, 0x6a, 0xba, 0x3e, 0x25, 0x71, 0x78, 0x50,
            0xc2, 0x6c, 0x9c, 0xd0, 0xd8, 0x9d
        ]
    );
}

#[test]
fn base64_of_digest_bytes() {
    assert_eq!(accept_from_digest(b"f"), b"Zg==".to_vec());
    assert_eq!(accept_from_digest(b"fo"), b"Zm8=".to_vec());
    assert_eq!(accept_from_digest(b"foobar"), b"Zm9vYmFy".to_vec());
    assert_eq!(accept_from_digest(&[0xfb, 0xff]), b"+/8=".to_vec());
}

#[test]
fn handshake_upgrades_with_key() {
    let raw = "GET /chat HTTP/1.1\r\nHost: server.example.com\r\nUpgrade: websocket\r\n\
               Connection: Upgrade\r\nSec-WebSocket-Key: dGhlIHNhbXBsZSBub25jZQ==\r\n\
               Sec-WebSocket-Version: 13\r\n\r\n";
    let d = parse_http_connection(raw.as_bytes()).unwrap();
    assert!(is_websocket_upgrade(&d));
    match websocket_handshake(&d) {
        Handshake::Upgraded(b) => {
            let text = String::from_utf8(b).unwrap();
            assert!(text.starts_with("HTTP/1.1 101 Switching Protocols\r\n"));
            assert!(text.contains("Sec-WebSocket-Accept: s3pPLMBiTxaQ9kYGzzhZRbK+xOo=\r\n"));
            assert!(text.contains("Connection: Upgrade\r\nUpgrade: websocket\r\n"));
        }
        other => panic!("{:?}", other),
    }
}

#[test]
fn handshake_without_key_is_refused() {
    let raw = "GET /chat HTTP/1.1\r\nConnection: Upgrade\r\nSec-WebSocket-Version: 13\r\n\r\n";
    let d = parse_http_connection(raw.as_bytes()).unwrap();
    assert!(is_websocket_upgrade(&d));
    assert_eq!(websocket_handshake(&d), Handshake::Refused(compose_server_error()));
}

#[test]
fn upgrade_needs_version_13() {
    let raw = "GET /chat HTTP/1.1\r\nConnection: Upgrade\r\nSec-WebSocket-Version: 8\r\n\r\n";
    let d = parse_http_connection(raw.as_bytes()).unwrap();
    assert!(!is_websocket_upgrade(&d));
}
