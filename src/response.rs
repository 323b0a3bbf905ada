//! The response draft and its serialization.

use vstd::prelude::*;

use crate::status::{
    code_of, is_registered, lemma_reason_ascii, reason_text, status_of, HttpStatusCode,
};
use crate::text::{ascii, ascii_bytes, decimal, decimal_value, lemma_decimal, push_decimal};

verus! {

pub open spec fn crlf() -> Seq<u8> {
    seq![13u8, 10u8]
}

/// A header as it stands in the header block.
pub open spec fn header_line(h: Seq<u8>) -> Seq<u8> {
    h + crlf()
}

/// The reason of a status line: the phrase of the table, or `Unknown(<code>)`
/// for a code outside it.
pub open spec fn reason_label(code: u16) -> Seq<u8> {
    if is_registered(code) {
        ascii(reason_text(status_of(code)))
    } else {
        ascii("Unknown("@) + decimal(code as nat) + seq![41u8]
    }
}

/// `HTTP/1.1 <code> <reason>` and a line end.
pub open spec fn status_line(code: u16) -> Seq<u8> {
    ascii("HTTP/1.1 "@) + decimal(code as nat) + seq![32u8] + reason_label(code) + crlf()
}

/// Every composed response starts with the status line of its code: the code
/// in decimal digits that denote it, then the reason phrase of the table; a
/// code outside the table gets the label `Unknown(<code>)`.
pub proof fn lemma_status_line_names_code(code: u16, headers: Seq<u8>, body: Seq<u8>)
    ensures
        response_bytes(status_line(code), headers, body).subrange(0, status_line(code).len() as int)
            == status_line(code),
        status_line(code) == ascii("HTTP/1.1 "@) + decimal(code as nat) + seq![32u8] + reason_label(
            code,
        ) + crlf(),
        is_registered(code) ==> reason_label(code) == ascii(reason_text(status_of(code))),
        decimal_value(decimal(code as nat)) == code,
        forall|i: int|
            0 <= i < decimal(code as nat).len() ==> 48 <= #[trigger] decimal(code as nat)[i] <= 57,
        code_of(status_of(code)) == code,
        !is_registered(code) ==> reason_label(code) == ascii("Unknown("@) + decimal(code as nat)
            + seq![41u8],
{
    lemma_decimal(code as nat);
    let r = response_bytes(status_line(code), headers, body);
    assert(r.subrange(0, status_line(code).len() as int) =~= status_line(code));
}

/// The headers that every response carries.
pub open spec fn default_headers() -> Seq<u8> {
    header_line(ascii("Server: std-stupid-http"@)) + header_line(ascii("Content-Type: text/html"@))
        + header_line(ascii("Accept-Ranges: bytes"@)) + header_line(
        ascii("Cache-Control: no-cache"@),
    )
}

/// The header that gives the length of a body.
pub open spec fn content_length_line(len: nat) -> Seq<u8> {
    header_line(ascii("Content-Length: "@) + decimal(len))
}

/// The bytes of a response: status line, headers, the computed length, a
/// blank line, then the body.
pub open spec fn response_bytes(status: Seq<u8>, headers: Seq<u8>, body: Seq<u8>) -> Seq<u8> {
    status + headers + content_length_line(body.len()) + crlf() + body
}

/// What a draft holds so far.
pub struct DraftView {
    pub status: Seq<u8>,
    pub headers: Seq<u8>,
    pub body: Seq<u8>,
}

/// A response under construction: status set once, headers appended in call
/// order, body appended; `get_response` serializes it and leaves it empty.
#[derive(Debug, PartialEq, Eq)]
pub struct HttpResponseStruct {
    status: Vec<u8>,
    headers: Vec<u8>,
    body: Vec<u8>,
}

impl View for HttpResponseStruct {
    type V = DraftView;

    closed spec fn view(&self) -> DraftView {
        DraftView { status: self.status@, headers: self.headers@, body: self.body@ }
    }
}

impl HttpResponseStruct {
    pub fn new() -> (r: Self)
        ensures
            r@.status == Seq::<u8>::empty(),
            r@.headers == Seq::<u8>::empty(),
            r@.body == Seq::<u8>::empty(),
    {
        HttpResponseStruct { status: Vec::new(), headers: Vec::new(), body: Vec::new() }
    }

    /// Sets the status line for `status_code`.
    pub fn set_status(&mut self, status_code: u16)
        ensures
            final(self)@.status == status_line(status_code),
            final(self)@.headers == old(self)@.headers,
            final(self)@.body == old(self)@.body,
    {
        let status = HttpStatusCode::from(status_code);
        proof {
            reveal_strlit("HTTP/1.1 ");
            reveal_strlit("Unknown(");
            lemma_reason_ascii(status);
        }
        let mut line: Vec<u8> = Vec::new();
        line.extend_from_slice(ascii_bytes("HTTP/1.1 "));
        push_decimal(&mut line, status_code as u64);
        line.push(32);
        match status {
            HttpStatusCode::Unknown(_) => {
                line.extend_from_slice(ascii_bytes("Unknown("));
                push_decimal(&mut line, status_code as u64);
                line.push(41);
            },
            _ => {
                line.extend_from_slice(ascii_bytes(status.reason_phrase()));
            },
        }
        line.push(13);
        line.push(10);
        assert(line@ =~= status_line(status_code));
        self.status = line;
    }

    /// Appends a header and its line end.
    pub fn add_header(&mut self, header: &[u8])
        ensures
            final(self)@.headers == old(self)@.headers + header_line(header@),
            final(self)@.status == old(self)@.status,
            final(self)@.body == old(self)@.body,
    {
        self.headers.extend_from_slice(header);
        self.headers.push(13);
        self.headers.push(10);
        assert(self.headers@ =~= old(self)@.headers + header_line(header@));
    }

    /// Appends to the body.
    pub fn set_body(&mut self, body: &[u8])
        ensures
            final(self)@.body == old(self)@.body + body@,
            final(self)@.status == old(self)@.status,
            final(self)@.headers == old(self)@.headers,
    {
        self.body.extend_from_slice(body);
    }

    /// Appends the headers that every response carries.
    pub fn add_default_headers(&mut self)
        ensures
            final(self)@.headers == old(self)@.headers + default_headers(),
            final(self)@.status == old(self)@.status,
            final(self)@.body == old(self)@.body,
    {
        proof {
            reveal_strlit("Server: std-stupid-http");
            reveal_strlit("Content-Type: text/html");
            reveal_strlit("Accept-Ranges: bytes");
            reveal_strlit("Cache-Control: no-cache");
        }
        self.add_header(ascii_bytes("Server: std-stupid-http"));
        self.add_header(ascii_bytes("Content-Type: text/html"));
        self.add_header(ascii_bytes("Accept-Ranges: bytes"));
        self.add_header(ascii_bytes("Cache-Control: no-cache"));
        assert(self@.headers =~= old(self)@.headers + default_headers());
    }

    /// Serializes the draft and leaves it empty.
    pub fn get_response(&mut self) -> (r: Vec<u8>)
        ensures
            r@ == response_bytes(old(self)@.status, old(self)@.headers, old(self)@.body),
            final(self)@.status == Seq::<u8>::empty(),
            final(self)@.headers == Seq::<u8>::empty(),
            final(self)@.body == Seq::<u8>::empty(),
    {
        let mut response_vec: Vec<u8> = Vec::new();
        response_vec.append(&mut self.status);
        response_vec.append(&mut self.headers);
        proof {
            reveal_strlit("Content-Length: ");
        }
        response_vec.extend_from_slice(ascii_bytes("Content-Length: "));
        push_decimal(&mut response_vec, self.body.len() as u64);
        response_vec.push(13);
        response_vec.push(10);
        response_vec.push(13);
        response_vec.push(10);
        response_vec.append(&mut self.body);
        assert(response_vec@ =~= response_bytes(
            old(self)@.status,
            old(self)@.headers,
            old(self)@.body,
        ));
        response_vec
    }
}

impl Default for HttpResponseStruct {
    fn default() -> (r: Self)
        ensures
            r@.status == Seq::<u8>::empty(),
            r@.headers == Seq::<u8>::empty(),
            r@.body == Seq::<u8>::empty(),
    {
        HttpResponseStruct::new()
    }
}

/// The bytes of the generic 500 response.
pub open spec fn server_error_bytes() -> Seq<u8> {
    response_bytes(status_line(500), default_headers(), Seq::<u8>::empty())
}

/// The bare response that reports a server error.
pub fn compose_server_error() -> (r: Vec<u8>)
    ensures
        r@ == server_error_bytes(),
{
    let mut http_response_struct = HttpResponseStruct::new();
    http_response_struct.set_status(500);
    http_response_struct.add_default_headers();
    http_response_struct.get_response()
}

/// Appends the bytes of `header` to `vector` and returns it.
pub fn add_header(header: &[u8], vector: Vec<u8>) -> (r: Vec<u8>)
    ensures
        r@ == vector@ + header@,
{
    let mut out = vector;
    out.extend_from_slice(header);
    assert(out@ =~= vector@ + header@);
    out
}

} // verus!
