//! The response composer: one response policy per server mode.

use vstd::prelude::*;

use crate::request::{HeaderSeq, HttpRequestType, ParseReturnData, RequestView};
use crate::response::{
    default_headers, header_line, response_bytes, status_line, HttpResponseStruct,
};
use crate::text::{ascii, ascii_bytes, copy_range, matches_at, occurs_at};

verus! {

/// The response mode of a server.
#[derive(Debug, Clone, Copy, PartialEq, Eq, Structural)]
pub enum ServerFunction {
    /// Serve files below the document root.
    ServeFile,
    /// Echo the request headers back as HTML.
    Debug,
    /// As `Debug`, and the raw request is also written to a file.
    DumpRequest,
    /// Declared, not implemented.
    Proxy,
}

/// The header that says whether the connection stays open.
pub open spec fn connection_header(keep_alive: bool) -> Seq<u8> {
    if keep_alive {
        header_line(ascii("Keep-Alive: 7s"@))
    } else {
        header_line(ascii("Connection: close"@))
    }
}

/// A response with the default headers and the connection header.
pub open spec fn full_response(code: u16, keep_alive: bool, body: Seq<u8>) -> Seq<u8> {
    response_bytes(status_line(code), default_headers() + connection_header(keep_alive), body)
}

fn add_connection_header(r: &mut HttpResponseStruct, keep_alive: bool)
    ensures
        final(r)@.headers == old(r)@.headers + connection_header(keep_alive),
        final(r)@.status == old(r)@.status,
        final(r)@.body == old(r)@.body,
{
    proof {
        reveal_strlit("Keep-Alive: 7s");
        reveal_strlit("Connection: close");
    }
    if keep_alive {
        r.add_header(ascii_bytes("Keep-Alive: 7s"));
    } else {
        r.add_header(ascii_bytes("Connection: close"));
    }
}

/// Builds `full_response(code, keep_alive, body)`.
fn respond(code: u16, keep_alive: bool, body: &[u8]) -> (r: Vec<u8>)
    ensures
        r@ == full_response(code, keep_alive, body@),
{
    let mut response = HttpResponseStruct::new();
    response.set_status(code);
    response.set_body(body);
    response.add_default_headers();
    add_connection_header(&mut response, keep_alive);
    assert(response@.headers =~= default_headers() + connection_header(keep_alive));
    assert(response@.body =~= body@);
    response.get_response()
}

/// One header as the debug page lists it.
pub open spec fn header_item(name: Seq<u8>, value: Seq<u8>) -> Seq<u8> {
    ascii("Header Name: "@) + name + ascii(" <br/>Header Content: "@) + value + ascii(
        " <br/><br/>"@,
    )
}

pub open spec fn header_items(h: HeaderSeq) -> Seq<u8>
    decreases h.len(),
{
    if h.len() == 0 {
        seq![]
    } else {
        header_items(h.drop_last()) + header_item(h.last().0, h.last().1)
    }
}

/// The HTML page that lists every header of a request, in order.
pub open spec fn debug_body(h: HeaderSeq) -> Seq<u8> {
    ascii("<html>"@) + header_items(h) + ascii("<html/>"@)
}

fn compose_debug_body(request: &ParseReturnData) -> (r: Vec<u8>)
    ensures
        r@ == debug_body(request.headers@),
{
    proof {
        reveal_strlit("<html>");
        reveal_strlit("<html/>");
        reveal_strlit("Header Name: ");
        reveal_strlit(" <br/>Header Content: ");
        reveal_strlit(" <br/><br/>");
    }
    let mut body: Vec<u8> = Vec::new();
    body.extend_from_slice(ascii_bytes("<html>"));
    let item_name = ascii_bytes("Header Name: ");
    let item_content = ascii_bytes(" <br/>Header Content: ");
    let item_end = ascii_bytes(" <br/><br/>");
    let n = request.headers.len();
    let mut i: usize = 0;
    while i < n
        invariant
            n == request.headers@.len(),
            i <= n,
            item_name@ == ascii("Header Name: "@),
            item_content@ == ascii(" <br/>Header Content: "@),
            item_end@ == ascii(" <br/><br/>"@),
            body@ == ascii("<html>"@) + header_items(request.headers@.subrange(0, i as int)),
        decreases n - i,
    {
        let (name, value) = request.headers.entry(i);
        let ghost before = body@;
        body.extend_from_slice(item_name);
        body.extend_from_slice(name);
        body.extend_from_slice(item_content);
        body.extend_from_slice(value);
        body.extend_from_slice(item_end);
        let ghost h = request.headers@;
        assert(h.subrange(0, i + 1).drop_last() =~= h.subrange(0, i as int));
        assert(body@ =~= before + header_item(h[i as int].0, h[i as int].1));
        i = i + 1;
    }
    body.extend_from_slice(ascii_bytes("<html/>"));
    assert(request.headers@.subrange(0, n as int) =~= request.headers@);
    assert(body@ =~= debug_body(request.headers@));
    body
}

/// What the composer asks for: a finished response, or the contents of a file.
#[derive(Debug, Clone, PartialEq, Eq)]
pub enum ResponsePlan {
    Respond(Vec<u8>),
    /// Read the file at this path (relative to the working directory) and hand
    /// the outcome to `compose_file_response`.
    ReadFile(Vec<u8>),
}

pub enum PlanView {
    Respond(Seq<u8>),
    ReadFile(Seq<u8>),
}

impl View for ResponsePlan {
    type V = PlanView;

    open spec fn view(&self) -> PlanView {
        match self {
            ResponsePlan::Respond(b) => PlanView::Respond(b@),
            ResponsePlan::ReadFile(p) => PlanView::ReadFile(p@),
        }
    }
}

/// The requested path below the document root: the path without its first byte.
pub open spec fn relative_path(path: Seq<u8>) -> Seq<u8> {
    if path.len() > 0 {
        path.drop_first()
    } else {
        path
    }
}

pub open spec fn contains(s: Seq<u8>, pattern: Seq<u8>) -> bool {
    exists|i: int| occurs_at(s, pattern, i)
}

/// A path that could leave the document root: it holds `..` or `./`.
pub open spec fn forbidden_path(rel: Seq<u8>) -> bool {
    contains(rel, ascii(".."@)) || contains(rel, ascii("./"@))
}

/// The plan for a request in a mode other than `Proxy`.
pub open spec fn response_plan(mode: ServerFunction, keep_alive: bool, req: RequestView) -> PlanView {
    if mode == ServerFunction::ServeFile {
        if req.method != HttpRequestType::GET {
            PlanView::Respond(full_response(405, keep_alive, seq![]))
        } else if forbidden_path(relative_path(req.path)) {
            PlanView::Respond(full_response(403, keep_alive, seq![]))
        } else {
            PlanView::ReadFile(ascii("./"@) + relative_path(req.path))
        }
    } else {
        PlanView::Respond(full_response(200, keep_alive, debug_body(req.headers)))
    }
}

fn contains_pattern(s: &[u8], pattern: &[u8]) -> (r: bool)
    ensures
        r == contains(s@, pattern@),
{
    if pattern.len() > s.len() {
        return false;
    }
    let last = s.len() - pattern.len();
    let mut i: usize = 0;
    while i <= last
        invariant
            last + pattern@.len() == s@.len(),
            forall|j: int| 0 <= j < i ==> !occurs_at(s@, pattern@, j),
        decreases last + 1 - i,
    {
        if matches_at(s, pattern, i) {
            return true;
        }
        if i == last {
            return false;
        }
        i = i + 1;
    }
    false
}

/// Composes the response to a parsed request. In `ServeFile` mode a request
/// that may be served asks for the file first.
pub fn compose_http_response(
    http_server_function: ServerFunction,
    http_keep_alive: bool,
    parse_return_data: &ParseReturnData,
) -> (r: ResponsePlan)
    requires
        http_server_function != ServerFunction::Proxy,
    ensures
        r@ == response_plan(http_server_function, http_keep_alive, parse_return_data@),
{
    if http_server_function == ServerFunction::ServeFile {
        if parse_return_data.http_request_type != HttpRequestType::GET {
            return ResponsePlan::Respond(respond(405, http_keep_alive, &[]));
        }
        let path = parse_return_data.request_path.as_slice();
        let rel = if path.len() > 0 {
            copy_range(path, 1, path.len())
        } else {
            Vec::new()
        };
        assert(rel@ =~= relative_path(path@));
        proof {
            reveal_strlit("..");
            reveal_strlit("./");
        }
        if contains_pattern(rel.as_slice(), ascii_bytes("..")) || contains_pattern(
            rel.as_slice(),
            ascii_bytes("./"),
        ) {
            return ResponsePlan::Respond(respond(403, http_keep_alive, &[]));
        }
        let mut full: Vec<u8> = Vec::new();
        full.extend_from_slice(ascii_bytes("./"));
        full.extend_from_slice(rel.as_slice());
        assert(full@ =~= ascii("./"@) + rel@);
        ResponsePlan::ReadFile(full)
    } else {
        let body = compose_debug_body(parse_return_data);
        ResponsePlan::Respond(respond(200, http_keep_alive, body.as_slice()))
    }
}

/// What came of reading a requested file.
#[derive(Debug, Clone, PartialEq, Eq)]
pub enum FileOutcome {
    /// The file was read as text.
    Contents(Vec<u8>),
    /// The file could not be opened.
    NotFound,
    /// The file opened but reading it failed.
    ReadFailed,
}

pub open spec fn file_response(keep_alive: bool, outcome: FileOutcome) -> Seq<u8> {
    match outcome {
        FileOutcome::Contents(c) => full_response(200, keep_alive, c@),
        FileOutcome::NotFound => full_response(404, keep_alive, seq![]),
        FileOutcome::ReadFailed => full_response(500, keep_alive, seq![]),
    }
}

/// The response to a file request once the file was read, or not.
pub fn compose_file_response(http_keep_alive: bool, outcome: &FileOutcome) -> (r: Vec<u8>)
    ensures
        r@ == file_response(http_keep_alive, *outcome),
{
    match outcome {
        FileOutcome::Contents(c) => respond(200, http_keep_alive, c.as_slice()),
        FileOutcome::NotFound => respond(404, http_keep_alive, &[]),
        FileOutcome::ReadFailed => respond(500, http_keep_alive, &[]),
    }
}

} // verus!
