//! The WebSocket upgrade handshake.

use vstd::prelude::*;

use crate::errors::StdStupidError;
use crate::request::{lookup, HeaderSeq, ParseReturnData};
use crate::response::{
    default_headers, header_line, response_bytes, server_error_bytes, status_line,
    compose_server_error, HttpResponseStruct,
};
use crate::text::{ascii, ascii_bytes, bytes_equal};
use crate::trusted::{base64, base64_standard, sha1_digest, sha1_of};

verus! {

/// The GUID that RFC 6455 appends to the client's key.
pub open spec fn websocket_guid() -> Seq<u8> {
    ascii("258EAFA5-E914-47DA-95CA-C5AB0DC85B11"@)
}

/// The SHA-1 digest of some text, as bytes.
pub fn hash_text_sha1(text: &[u8]) -> (r: Result<Vec<u8>, StdStupidError>)
    ensures
        r matches Ok(d) && d@ == sha1_digest(text@) && d@.len() == 20,
{
    Ok(sha1_of(text))
}

/// The `Sec-WebSocket-Accept` value for a digest: its base64 text.
pub fn accept_from_digest(digest: &[u8]) -> (r: Vec<u8>)
    requires
        digest@.len() <= usize::MAX / 4,
    ensures
        r@ == base64(digest@),
{
    base64_standard(digest)
}

/// The `Sec-WebSocket-Accept` value for a client key.
pub open spec fn accept_value(key: Seq<u8>) -> Seq<u8> {
    base64(sha1_digest(key + websocket_guid()))
}

/// `base64(SHA-1(key ++ GUID))`.
pub fn websocket_accept_key(key: &[u8]) -> (r: Vec<u8>)
    ensures
        r@ == accept_value(key@),
{
    proof {
        reveal_strlit("258EAFA5-E914-47DA-95CA-C5AB0DC85B11");
    }
    let mut text: Vec<u8> = Vec::new();
    text.extend_from_slice(key);
    text.extend_from_slice(ascii_bytes("258EAFA5-E914-47DA-95CA-C5AB0DC85B11"));
    assert(text@ =~= key@ + websocket_guid());
    let digest = sha1_of(text.as_slice());
    accept_from_digest(digest.as_slice())
}

/// The 101 response that completes an upgrade.
pub open spec fn upgrade_response(accept: Seq<u8>) -> Seq<u8> {
    response_bytes(
        status_line(101),
        default_headers() + header_line(ascii("Sec-WebSocket-Accept: "@) + accept) + header_line(
            ascii("Connection: Upgrade"@),
        ) + header_line(ascii("Upgrade: websocket"@)),
        Seq::<u8>::empty(),
    )
}

/// The 101 response for an accept value.
pub fn compose_upgrade_response(accept: &[u8]) -> (r: Vec<u8>)
    ensures
        r@ == upgrade_response(accept@),
{
    proof {
        reveal_strlit("Sec-WebSocket-Accept: ");
        reveal_strlit("Connection: Upgrade");
        reveal_strlit("Upgrade: websocket");
    }
    let mut response_struct = HttpResponseStruct::new();
    response_struct.set_status(101);
    response_struct.add_default_headers();
    let mut accept_header: Vec<u8> = Vec::new();
    accept_header.extend_from_slice(ascii_bytes("Sec-WebSocket-Accept: "));
    accept_header.extend_from_slice(accept);
    response_struct.add_header(accept_header.as_slice());
    response_struct.add_header(ascii_bytes("Connection: Upgrade"));
    response_struct.add_header(ascii_bytes("Upgrade: websocket"));
    assert(response_struct@.headers =~= default_headers() + header_line(
        ascii("Sec-WebSocket-Accept: "@) + accept@,
    ) + header_line(ascii("Connection: Upgrade"@)) + header_line(ascii("Upgrade: websocket"@)));
    response_struct.get_response()
}

/// A request asks for an upgrade when it carries both `Connection: Upgrade`
/// and `Sec-WebSocket-Version: 13`.
pub open spec fn is_upgrade_request(h: HeaderSeq) -> bool {
    lookup(h, ascii("Connection"@)) == Some(ascii("Upgrade"@)) && lookup(
        h,
        ascii("Sec-WebSocket-Version"@),
    ) == Some(ascii("13"@))
}

pub open spec fn websocket_key(h: HeaderSeq) -> Option<Seq<u8>> {
    lookup(h, ascii("Sec-WebSocket-Key"@))
}

/// Whether the request asks for an upgrade.
pub fn is_websocket_upgrade(request: &ParseReturnData) -> (r: bool)
    ensures
        r == is_upgrade_request(request.headers@),
{
    proof {
        reveal_strlit("Connection");
        reveal_strlit("Upgrade");
        reveal_strlit("Sec-WebSocket-Version");
        reveal_strlit("13");
    }
    let connection = match request.headers.get(ascii_bytes("Connection")) {
        Some(v) => bytes_equal(v, ascii_bytes("Upgrade")),
        None => false,
    };
    let version = match request.headers.get(ascii_bytes("Sec-WebSocket-Version")) {
        Some(v) => bytes_equal(v, ascii_bytes("13")),
        None => false,
    };
    connection && version
}

/// What answers an upgrade request.
#[derive(Debug, Clone, PartialEq, Eq)]
pub enum Handshake {
    /// The 101 response; the connection speaks WebSocket from now on.
    Upgraded(Vec<u8>),
    /// The request has no key: the generic error response, and no upgrade.
    Refused(Vec<u8>),
}

/// The handshake for an upgrade request.
pub fn websocket_handshake(request: &ParseReturnData) -> (r: Handshake)
    ensures
        match websocket_key(request.headers@) {
            Some(k) => r matches Handshake::Upgraded(b) && b@ == upgrade_response(accept_value(k)),
            None => r matches Handshake::Refused(b) && b@ == server_error_bytes(),
        },
{
    proof {
        reveal_strlit("Sec-WebSocket-Key");
    }
    match request.headers.get(ascii_bytes("Sec-WebSocket-Key")) {
        Some(key) => {
            let accept = websocket_accept_key(key);
            Handshake::Upgraded(compose_upgrade_response(accept.as_slice()))
        },
        None => Handshake::Refused(compose_server_error()),
    }
}

} // verus!
