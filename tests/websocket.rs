use std_stupid_http::errors::{FrameError, StdStupidError};
use std_stupid_http::websocket::{WebSocketFrame, WebSocketOpCode};

fn round_trip(size: usize) {
    let payload: Vec<u8> = (0..size).map(|i| (i % 251) as u8).collect();
    let mut frame = WebSocketFrame::default();
    frame.set_op_code(WebSocketOpCode::Binary);
    frame.set_message(&payload);
    let bytes = frame.create_server_message_frame().unwrap();
    let back = WebSocketFrame::parse_frame(bytes).unwrap();
    assert_eq!(back.opcode(), WebSocketOpCode::Binary);
    assert!(back.fin());
    assert!(!back.is_masked());
    assert_eq!(back.payload_length(), size as u64);
    assert_eq!(back.data(), payload);
}

#[test]
fn frame_round_trip_small() {
    round_trip(10);
}

#[test]
fn frame_round_trip_medium() {
    round_trip(200);
}

#[test]
fn frame_round_trip_large() {
    round_trip(100000);
}

#[test]
fn frame_length_encodings() {
    let mut f = WebSocketFrame::default();
    f.set_message(&[7u8; 10]);
    let b = f.create_server_message_frame().unwrap();
    assert_eq!(&b[..2], &[0x81, 10]);
    f.set_message(&[7u8; 200]);
    let b = f.create_server_message_frame().unwrap();
    assert_eq!(&b[..4], &[0x81, 126, 0, 200]);
    f.set_message(&vec![7u8; 100000]);
    let b = f.create_server_message_frame().unwrap();
    assert_eq!(&b[..10], &[0x81, 127, 0, 0, 0, 0, 0, 1, 0x86, 0xa0]);
    assert_eq!(b.len(), 10 + 100000);
}

#[test]
fn masked_client_ping_payload_is_unmasked() {
    let key = [0x01u8, 0x02, 0x03, 0x04];
    let mut bytes = vec![0x81u8, 0x80 | 4];
    bytes.extend_from_slice(&key);
    for (i, b) in b"ping".iter().enumerate() {
        bytes.push(b ^ key[i % 4]);
    }
    let f = WebSocketFrame::parse_frame(bytes).unwrap();
    assert_eq!(f.data(), b"ping".to_vec());
    assert!(f.is_masked());
    assert_eq!(f.mask_key(), &key[..]);
    assert_eq!(f.opcode(), WebSocketOpCode::Text);
}

#[test]
fn frame_opcodes_round_trip() {
    for op in [
        WebSocketOpCode::Continuation,
        WebSocketOpCode::Text,
        WebSocketOpCode::Binary,
        WebSocketOpCode::NonControl,
        WebSocketOpCode::ConnectionClose,
        WebSocketOpCode::Ping,
        WebSocketOpCode::Pong,
        WebSocketOpCode::FutureControl,
    ] {
        let mut f = WebSocketFrame::default();
        f.set_op_code(op);
        let b = f.create_server_message_frame().unwrap();
        assert_eq!(WebSocketFrame::parse_frame(b).unwrap().opcode(), op);
    }
}

#[test]
fn frame_encode_errors() {
    let mut f = WebSocketFrame::default();
    f.set_op_code(WebSocketOpCode::Invalid);
    assert_eq!(
        f.create_server_message_frame(),
        Err(StdStupidError::Frame(FrameError::InvalidOpCode))
    );
    let mut masked = WebSocketFrame::parse_frame(vec![0x81, 0x80, 1, 2, 3, 4]).unwrap();
    assert_eq!(
        masked.create_server_message_frame(),
        Err(StdStupidError::Frame(FrameError::MaskedServerFrame))
    );
}

#[test]
fn frame_decode_errors() {
    let err = |b: Vec<u8>| WebSocketFrame::parse_frame(b).unwrap_err();
    assert_eq!(err(vec![0x81]), StdStupidError::Frame(FrameError::Truncated));
    assert_eq!(err(vec![0x81, 126, 0]), StdStupidError::Frame(FrameError::Truncated));
    assert_eq!(err(vec![0x81, 0x81, 1, 2]), StdStupidError::Frame(FrameError::Truncated));
    assert_eq!(err(vec![0x81, 3, b'a']), StdStupidError::Frame(FrameError::LengthMismatch));
    assert_eq!(err(vec![0x81, 1, b'a', b'b']), StdStupidError::Frame(FrameError::LengthMismatch));
}

#[test]
fn frame_header_bits() {
    let f = WebSocketFrame::parse_frame(vec![0x7a, 0]).unwrap();
    assert!(!f.fin());
    assert_eq!(f.reserved_bits(), (true, true, true));
    assert_eq!(f.opcode(), WebSocketOpCode::Pong);
    let f = WebSocketFrame::parse_frame(vec![0x05, 0]).unwrap();
    assert_eq!(f.opcode(), WebSocketOpCode::NonControl);
    let f = WebSocketFrame::parse_frame(vec![0x0f, 0]).unwrap();
    assert_eq!(f.opcode(), WebSocketOpCode::FutureControl);
}
