//! A small HTTP/1.1 and WebSocket endpoint: request tokenizer, response
//! composer, status table, WebSocket handshake and frame codec, and the
//! per-connection keep-alive state machine, all with verified contracts.

pub mod compose;
pub mod connection;
pub mod errors;
pub mod handshake;
pub mod numeral;
pub mod random;
pub mod request;
pub mod response;
pub mod status;
pub mod text;
pub mod trusted;
pub mod websocket;
