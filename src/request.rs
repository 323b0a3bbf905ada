//! The HTTP request tokenizer: request line, headers and form body.

use vstd::prelude::*;

use crate::errors::{RequestError, StdStupidError};
use crate::text::{
    ascii, ascii_bytes, bytes_equal, copy_range, find_byte, index_of, is_space, lemma_index_of,
    lemma_index_of_unique, remove_byte, trim, trim_end, trim_start, trimmed, without_byte,
};
use crate::numeral::{float_literal, is_float_literal};

verus! {

pub const LF: u8 = 10;

pub const CR: u8 = 13;

pub const SLASH: u8 = 47;

pub const COLON: u8 = 58;

/// The byte `H` that starts the protocol name of a request line.
pub const LETTER_H: u8 = 72;

/// The request methods; `INVALID` stands for a token outside the table.
#[allow(non_camel_case_types, clippy::upper_case_acronyms)]
#[derive(Debug, Clone, Copy, PartialEq, Eq, Structural)]
pub enum HttpRequestType {
    GET,
    POST,
    OPTIONS,
    HEAD,
    PUT,
    DELETE,
    TRACE,
    CONNECT,
    INVALID,
}

/// The token of each method of the table.
pub open spec fn method_token(m: HttpRequestType) -> Seq<u8> {
    match m {
        HttpRequestType::GET => ascii("GET"@),
        HttpRequestType::POST => ascii("POST"@),
        HttpRequestType::OPTIONS => ascii("OPTIONS"@),
        HttpRequestType::HEAD => ascii("HEAD"@),
        HttpRequestType::PUT => ascii("PUT"@),
        HttpRequestType::DELETE => ascii("DELETE"@),
        HttpRequestType::TRACE => ascii("TRACE"@),
        HttpRequestType::CONNECT => ascii("CONNECT"@),
        HttpRequestType::INVALID => seq![],
    }
}

/// The method that a (trimmed) token names.
pub open spec fn method_of(tok: Seq<u8>) -> HttpRequestType {
    if tok == method_token(HttpRequestType::GET) {
        HttpRequestType::GET
    } else if tok == method_token(HttpRequestType::POST) {
        HttpRequestType::POST
    } else if tok == method_token(HttpRequestType::HEAD) {
        HttpRequestType::HEAD
    } else if tok == method_token(HttpRequestType::PUT) {
        HttpRequestType::PUT
    } else if tok == method_token(HttpRequestType::CONNECT) {
        HttpRequestType::CONNECT
    } else if tok == method_token(HttpRequestType::DELETE) {
        HttpRequestType::DELETE
    } else if tok == method_token(HttpRequestType::TRACE) {
        HttpRequestType::TRACE
    } else if tok == method_token(HttpRequestType::OPTIONS) {
        HttpRequestType::OPTIONS
    } else {
        HttpRequestType::INVALID
    }
}

/// Maps a method token, with surrounding whitespace, through the method table.
pub fn parse_http_request_type(to_parse: &[u8]) -> (r: HttpRequestType)
    ensures
        r == method_of(trimmed(to_parse@)),
{
    let t = trim(to_parse);
    proof {
        reveal_strlit("GET");
        reveal_strlit("POST");
        reveal_strlit("HEAD");
        reveal_strlit("PUT");
        reveal_strlit("CONNECT");
        reveal_strlit("DELETE");
        reveal_strlit("TRACE");
        reveal_strlit("OPTIONS");
    }
    if bytes_equal(t.as_slice(), ascii_bytes("GET")) {
        HttpRequestType::GET
    } else if bytes_equal(t.as_slice(), ascii_bytes("POST")) {
        HttpRequestType::POST
    } else if bytes_equal(t.as_slice(), ascii_bytes("HEAD")) {
        HttpRequestType::HEAD
    } else if bytes_equal(t.as_slice(), ascii_bytes("PUT")) {
        HttpRequestType::PUT
    } else if bytes_equal(t.as_slice(), ascii_bytes("CONNECT")) {
        HttpRequestType::CONNECT
    } else if bytes_equal(t.as_slice(), ascii_bytes("DELETE")) {
        HttpRequestType::DELETE
    } else if bytes_equal(t.as_slice(), ascii_bytes("TRACE")) {
        HttpRequestType::TRACE
    } else if bytes_equal(t.as_slice(), ascii_bytes("OPTIONS")) {
        HttpRequestType::OPTIONS
    } else {
        HttpRequestType::INVALID
    }
}

// ---------------------------------------------------------------------------
// Lines

/// A line without the carriage return that ended it.
pub open spec fn strip_cr(l: Seq<u8>) -> Seq<u8> {
    if l.len() > 0 && l.last() == CR {
        l.drop_last()
    } else {
        l
    }
}

/// The lines of a buffer: split at each line feed, a carriage return before
/// it dropped; a last line without a line feed is kept as it is.
pub open spec fn lines(s: Seq<u8>) -> Seq<Seq<u8>>
    decreases s.len(),
{
    if s.len() == 0 {
        seq![]
    } else {
        let i = index_of(s, LF);
        if i >= s.len() {
            seq![s]
        } else {
            seq![strip_cr(s.subrange(0, i as int))] + lines(s.subrange(i as int + 1, s.len() as int))
        }
    }
}

pub open spec fn views(v: Seq<Vec<u8>>) -> Seq<Seq<u8>> {
    v.map_values(|l: Vec<u8>| l@)
}

/// Splits a buffer into its lines.
pub fn split_lines(buf: &[u8]) -> (r: Vec<Vec<u8>>)
    ensures
        views(r@) == lines(buf@),
{
    let mut out: Vec<Vec<u8>> = Vec::new();
    let mut pos: usize = 0;
    assert(buf@.subrange(0, buf@.len() as int) =~= buf@);
    while pos < buf.len()
        invariant
            pos <= buf@.len(),
            lines(buf@) == views(out@) + lines(buf@.subrange(pos as int, buf@.len() as int)),
        decreases buf@.len() - pos,
    {
        let ghost rest = buf@.subrange(pos as int, buf@.len() as int);
        let ghost pre = views(out@);
        let nl = find_byte(buf, LF, pos);
        proof {
            lemma_index_of(rest, LF);
        }
        if nl == buf.len() {
            let line = copy_range(buf, pos, nl);
            assert(lines(rest) == seq![rest]);
            out.push(line);
            assert(views(out@) =~= pre.push(rest));
            pos = nl;
        } else {
            let mut line = copy_range(buf, pos, nl);
            if line.len() > 0 && line[line.len() - 1] == CR {
                line.pop();
            }
            assert(rest.subrange(0, nl - pos) =~= buf@.subrange(pos as int, nl as int));
            assert(rest.subrange(nl - pos + 1, rest.len() as int) =~= buf@.subrange(
                nl + 1,
                buf@.len() as int,
            ));
            assert(line@ =~= strip_cr(buf@.subrange(pos as int, nl as int)));
            out.push(line);
            assert(views(out@) =~= pre.push(line@));
            pos = nl + 1;
        }
    }
    assert(buf@.subrange(pos as int, buf@.len() as int) =~= Seq::<u8>::empty());
    assert(views(out@) + seq![] =~= views(out@));
    out
}

// ---------------------------------------------------------------------------
// Request line

/// The method, path and version of a request line.
pub open spec fn request_line(
    line: Seq<u8>,
) -> Result<(HttpRequestType, Seq<u8>, Seq<u8>), RequestError> {
    let slash = index_of(line, SLASH);
    if slash >= line.len() {
        Err(RequestError::MissingMethodSeparator)
    } else {
        let method = method_of(trimmed(line.subrange(0, slash as int)));
        let rest = line.subrange(slash as int, line.len() as int);
        let h = index_of(rest, LETTER_H);
        if h >= rest.len() {
            Err(RequestError::MissingVersionMarker)
        } else {
            let path = trimmed(rest.subrange(0, h as int));
            let tail = rest.subrange(h as int, rest.len() as int);
            let sep = index_of(tail, SLASH);
            if sep >= tail.len() {
                Err(RequestError::MissingVersionSeparator)
            } else {
                let version = tail.subrange(sep as int + 1, tail.len() as int);
                if !float_literal(version) {
                    Err(RequestError::InvalidVersion)
                } else {
                    Ok((method, path, version))
                }
            }
        }
    }
}

fn parse_request_line(line: &[u8]) -> (r: Result<(HttpRequestType, Vec<u8>, Vec<u8>), RequestError>)
    ensures
        match r {
            Ok((m, p, v)) => request_line(line@) == Ok::<_, RequestError>((m, p@, v@)),
            Err(e) => request_line(line@) == Err::<(HttpRequestType, Seq<u8>, Seq<u8>), _>(e),
        },
{
    let slash = find_byte(line, SLASH, 0);
    assert(line@.subrange(0, line@.len() as int) =~= line@);
    if slash == line.len() {
        return Err(RequestError::MissingMethodSeparator);
    }
    let method = parse_http_request_type(&line[0..slash]);
    let ghost rest = line@.subrange(slash as int, line@.len() as int);
    let h = find_byte(line, LETTER_H, slash);
    if h == line.len() {
        return Err(RequestError::MissingVersionMarker);
    }
    assert(rest.subrange(0, h - slash) =~= line@.subrange(slash as int, h as int));
    let path = trim(&line[slash..h]);
    let ghost tail = rest.subrange(h - slash, rest.len() as int);
    assert(tail =~= line@.subrange(h as int, line@.len() as int));
    let sep = find_byte(line, SLASH, h);
    if sep == line.len() {
        return Err(RequestError::MissingVersionSeparator);
    }
    assert(tail.subrange(sep - h + 1, tail.len() as int) =~= line@.subrange(
        sep + 1,
        line@.len() as int,
    ));
    let version = copy_range(line, sep + 1, line.len());
    if !is_float_literal(version.as_slice()) {
        return Err(RequestError::InvalidVersion);
    }
    Ok((method, path, version))
}

// ---------------------------------------------------------------------------
// Headers

/// A header list, in the order in which the names first came.
pub type HeaderSeq = Seq<(Seq<u8>, Seq<u8>)>;

/// Index of the first field named `name`, or the length where there is none.
pub open spec fn name_index(h: HeaderSeq, name: Seq<u8>) -> nat
    decreases h.len(),
{
    if h.len() == 0 {
        0
    } else if h[0].0 == name {
        0
    } else {
        1 + name_index(h.drop_first(), name)
    }
}

pub proof fn lemma_name_index(h: HeaderSeq, name: Seq<u8>)
    ensures
        name_index(h, name) <= h.len(),
        forall|j: int| 0 <= j < name_index(h, name) ==> (#[trigger] h[j]).0 != name,
        name_index(h, name) < h.len() ==> h[name_index(h, name) as int].0 == name,
    decreases h.len(),
{
    if h.len() > 0 && h[0].0 != name {
        lemma_name_index(h.drop_first(), name);
        assert forall|j: int| 0 <= j < name_index(h, name) implies (#[trigger] h[j]).0 != name by {
            if j > 0 {
                assert(h[j] == h.drop_first()[j - 1]);
            }
        }
    }
}

pub proof fn lemma_name_index_unique(h: HeaderSeq, name: Seq<u8>, i: int)
    requires
        0 <= i <= h.len(),
        forall|j: int| 0 <= j < i ==> (#[trigger] h[j]).0 != name,
        i < h.len() ==> h[i].0 == name,
    ensures
        name_index(h, name) == i,
    decreases h.len(),
{
    if h.len() > 0 && i > 0 {
        assert forall|j: int| 0 <= j < i - 1 implies (#[trigger] h.drop_first()[j]).0 != name by {
            assert(h.drop_first()[j] == h[j + 1]);
        }
        lemma_name_index_unique(h.drop_first(), name, i - 1);
    }
}

/// No name stands twice.
pub open spec fn unique_names(h: HeaderSeq) -> bool {
    forall|i: int, j: int|
        0 <= i < h.len() && 0 <= j < h.len() && (#[trigger] h[i]).0 == (#[trigger] h[j]).0 ==> i
            == j
}

/// The value stored under `name`.
pub open spec fn lookup(h: HeaderSeq, name: Seq<u8>) -> Option<Seq<u8>> {
    if name_index(h, name) < h.len() {
        Some(h[name_index(h, name) as int].1)
    } else {
        None
    }
}

/// Stores `value` under `name`: a name already present keeps its place and
/// takes the new value; a new name goes last.
pub open spec fn upsert(h: HeaderSeq, name: Seq<u8>, value: Seq<u8>) -> HeaderSeq {
    if name_index(h, name) < h.len() {
        h.update(name_index(h, name) as int, (name, value))
    } else {
        h.push((name, value))
    }
}

/// Storing a field keeps the names unique.
pub proof fn lemma_upsert_unique(h: HeaderSeq, name: Seq<u8>, value: Seq<u8>)
    requires
        unique_names(h),
    ensures
        unique_names(upsert(h, name, value)),
        lookup(upsert(h, name, value), name) == Some(value),
{
    lemma_name_index(h, name);
    let u = upsert(h, name, value);
    lemma_name_index(u, name);
    assert forall|j: int| 0 <= j < name_index(h, name) implies (#[trigger] u[j]).0 != name by {
        assert(u[j] == h[j]);
    }
    lemma_name_index_unique(u, name, name_index(h, name) as int);
}

/// A run of header lines builds a list with unique names.
pub proof fn lemma_fold_headers_unique(ls: Seq<Seq<u8>>)
    ensures
        unique_names(fold_headers(ls)),
    decreases ls.len(),
{
    if ls.len() > 0 {
        lemma_fold_headers_unique(ls.drop_last());
        let p = header_of(ls.last());
        lemma_upsert_unique(fold_headers(ls.drop_last()), p.0, p.1);
    }
}

/// The header fields of a request.
#[derive(Debug, Clone, PartialEq, Eq)]
pub struct Headers {
    entries: Vec<(Vec<u8>, Vec<u8>)>,
}

impl View for Headers {
    type V = HeaderSeq;

    closed spec fn view(&self) -> HeaderSeq {
        self.entries@.map_values(|e: (Vec<u8>, Vec<u8>)| (e.0@, e.1@))
    }
}

impl Headers {
    pub fn new() -> (r: Self)
        ensures
            r@ == Seq::<(Seq<u8>, Seq<u8>)>::empty(),
            unique_names(r@),
    {
        let r = Headers { entries: Vec::new() };
        assert(r@ =~= Seq::<(Seq<u8>, Seq<u8>)>::empty());
        r
    }

    pub fn len(&self) -> (r: usize)
        ensures
            r == self@.len(),
    {
        self.entries.len()
    }

    /// The name and value of the `i`-th field.
    pub fn entry(&self, i: usize) -> (r: (&[u8], &[u8]))
        requires
            i < self@.len(),
        ensures
            r.0@ == self@[i as int].0,
            r.1@ == self@[i as int].1,
    {
        let e = &self.entries[i];
        (e.0.as_slice(), e.1.as_slice())
    }

    /// Position of the field named `name`, if there is one.
    fn position(&self, name: &[u8]) -> (r: Option<usize>)
        ensures
            match r {
                Some(i) => i == name_index(self@, name@) && i < self@.len() && self@[i as int].0
                    == name@,
                None => name_index(self@, name@) == self@.len(),
            },
    {
        let mut i: usize = 0;
        while i < self.entries.len()
            invariant
                i <= self@.len(),
                self@.len() == self.entries@.len(),
                forall|j: int| 0 <= j < i ==> (#[trigger] self@[j]).0 != name@,
            decreases self@.len() - i,
        {
            assert(self@[i as int].0 == self.entries@[i as int].0@);
            if bytes_equal(self.entries[i].0.as_slice(), name) {
                proof {
                    lemma_name_index_unique(self@, name@, i as int);
                }
                return Some(i);
            }
            i = i + 1;
        }
        proof {
            lemma_name_index_unique(self@, name@, i as int);
        }
        None
    }

    /// The value stored under `name`.
    pub fn get(&self, name: &[u8]) -> (r: Option<&[u8]>)
        ensures
            match r {
                Some(v) => lookup(self@, name@) == Some(v@),
                None => lookup(self@, name@) is None,
            },
    {
        match self.position(name) {
            Some(i) => {
                assert(self@[i as int].1 == self.entries@[i as int].1@);
                Some(self.entries[i].1.as_slice())
            },
            None => None,
        }
    }

    /// Stores `value` under `name`; the last value given for a name wins.
    pub fn insert(&mut self, name: Vec<u8>, value: Vec<u8>)
        ensures
            final(self)@ == upsert(old(self)@, name@, value@),
            unique_names(old(self)@) ==> unique_names(final(self)@),
    {
        let ghost pre = self@;
        proof {
            if unique_names(pre) {
                lemma_upsert_unique(pre, name@, value@);
            }
        }
        match self.position(name.as_slice()) {
            Some(i) => {
                let ghost e = (name@, value@);
                self.entries.set(i, (name, value));
                assert(self@ =~= pre.update(i as int, e));
                assert(self@ == upsert(pre, e.0, e.1));
            },
            None => {
                let ghost e = (name@, value@);
                self.entries.push((name, value));
                assert(self@ =~= pre.push(e));
            },
        }
    }
}

/// The name and value of a header line: split at the first colon, both sides
/// trimmed, the colons of the value taken out.
pub open spec fn header_of(line: Seq<u8>) -> (Seq<u8>, Seq<u8>) {
    let c = index_of(line, COLON);
    if c >= line.len() {
        (trimmed(line), seq![])
    } else {
        (
            trimmed(line.subrange(0, c as int)),
            trimmed(without_byte(line.subrange(c as int + 1, line.len() as int), COLON)),
        )
    }
}

fn split_header(line: &[u8]) -> (r: (Vec<u8>, Vec<u8>))
    ensures
        (r.0@, r.1@) == header_of(line@),
{
    let c = find_byte(line, COLON, 0);
    assert(line@.subrange(0, line@.len() as int) =~= line@);
    if c == line.len() {
        (trim(line), Vec::new())
    } else {
        let name = trim(&line[0..c]);
        let joined = remove_byte(&line[c + 1..line.len()], COLON);
        let value = trim(joined.as_slice());
        (name, value)
    }
}

/// The header list that a run of header lines builds.
pub open spec fn fold_headers(ls: Seq<Seq<u8>>) -> HeaderSeq
    decreases ls.len(),
{
    if ls.len() == 0 {
        seq![]
    } else {
        let p = header_of(ls.last());
        upsert(fold_headers(ls.drop_last()), p.0, p.1)
    }
}

/// Index of the first empty line, or the number of lines where none is empty.
pub open spec fn first_empty(ls: Seq<Seq<u8>>) -> nat
    decreases ls.len(),
{
    if ls.len() == 0 {
        0
    } else if ls[0].len() == 0 {
        0
    } else {
        1 + first_empty(ls.drop_first())
    }
}

pub proof fn lemma_first_empty_unique(ls: Seq<Seq<u8>>, i: int)
    requires
        0 <= i <= ls.len(),
        forall|j: int| 0 <= j < i ==> (#[trigger] ls[j]).len() != 0,
        i < ls.len() ==> ls[i].len() == 0,
    ensures
        first_empty(ls) == i,
    decreases ls.len(),
{
    if ls.len() > 0 && i > 0 {
        assert forall|j: int| 0 <= j < i - 1 implies (#[trigger] ls.drop_first()[j]).len() != 0 by {
            assert(ls.drop_first()[j] == ls[j + 1]);
        }
        lemma_first_empty_unique(ls.drop_first(), i - 1);
    }
}

// ---------------------------------------------------------------------------
// The whole request

/// What a request holds, as plain sequences.
pub struct RequestView {
    pub method: HttpRequestType,
    pub path: Seq<u8>,
    pub version: Seq<u8>,
    pub headers: HeaderSeq,
    pub body: Seq<u8>,
}

/// A parsed request. The version is kept as the text that the request line
/// gave; it is known to parse as a float.
#[derive(Debug, Clone, PartialEq, Eq)]
pub struct ParseReturnData {
    pub http_version: Vec<u8>,
    pub http_request_type: HttpRequestType,
    pub request_path: Vec<u8>,
    pub headers: Headers,
    pub body: Vec<u8>,
}

impl View for ParseReturnData {
    type V = RequestView;

    open spec fn view(&self) -> RequestView {
        RequestView {
            method: self.http_request_type,
            path: self.request_path@,
            version: self.http_version@,
            headers: self.headers@,
            body: self.body@,
        }
    }
}

pub open spec fn content_type_name() -> Seq<u8> {
    ascii("Content-Type"@)
}

pub open spec fn form_content_type() -> Seq<u8> {
    ascii("application/x-www-form-urlencoded"@)
}

/// Whether a request carries a form body.
pub open spec fn takes_form_body(method: HttpRequestType, h: HeaderSeq) -> bool {
    method == HttpRequestType::POST && lookup(h, content_type_name()) == Some(form_content_type())
}

/// The request that a buffer holds: the request line, then header lines up to
/// the first empty line; after it, for a form POST, the last line is the body.
pub open spec fn parse_request(buf: Seq<u8>) -> Result<RequestView, RequestError> {
    let ls = lines(buf);
    if ls.len() == 0 {
        Err(RequestError::Empty)
    } else {
        match request_line(ls[0]) {
            Err(e) => Err(e),
            Ok((method, path, version)) => {
                let tail = ls.drop_first();
                let e = first_empty(tail);
                let headers = fold_headers(tail.subrange(0, e as int));
                let rest = if e < tail.len() {
                    tail.subrange(e as int + 1, tail.len() as int)
                } else {
                    Seq::<Seq<u8>>::empty()
                };
                let body = if takes_form_body(method, headers) && rest.len() > 0 {
                    rest.last()
                } else {
                    Seq::<u8>::empty()
                };
                Ok(RequestView { method, path, version, headers, body })
            },
        }
    }
}

/// Parses the bytes of one read into a request.
pub fn parse_http_connection(connection_data_raw: &[u8]) -> (r: Result<
    ParseReturnData,
    StdStupidError,
>)
    ensures
        match r {
            Ok(d) => parse_request(connection_data_raw@) == Ok::<_, RequestError>(d@) && unique_names(
                d.headers@,
            ),
            Err(e) => exists|k: RequestError|
                parse_request(connection_data_raw@) == Err::<RequestView, _>(k) && e
                    == StdStupidError::Request(k),
        },
{
    let ls = split_lines(connection_data_raw);
    let ghost lv = views(ls@);
    if ls.len() == 0 {
        return Err(StdStupidError::Request(RequestError::Empty));
    }
    assert(lv[0] == ls@[0]@);
    let (method, path, version) = match parse_request_line(ls[0].as_slice()) {
        Ok(t) => t,
        Err(e) => {
            return Err(StdStupidError::Request(e));
        },
    };
    let ghost tail = lv.drop_first();
    let mut headers = Headers::new();
    let mut i: usize = 1;
    while i < ls.len() && ls[i].len() > 0
        invariant
            1 <= i <= ls@.len(),
            lv == views(ls@),
            tail == lv.drop_first(),
            forall|j: int| 0 <= j < i - 1 ==> (#[trigger] tail[j]).len() != 0,
            headers@ == fold_headers(tail.subrange(0, i - 1)),
        decreases ls@.len() - i,
    {
        assert(tail[i - 1] == ls@[i as int]@);
        let (n, v) = split_header(ls[i].as_slice());
        headers.insert(n, v);
        assert(tail.subrange(0, i as int).drop_last() =~= tail.subrange(0, i - 1));
        i = i + 1;
    }
    proof {
        if i < ls.len() {
            assert(tail[i - 1] == ls@[i as int]@);
        }
        lemma_first_empty_unique(tail, i - 1);
    }
    proof {
        lemma_fold_headers_unique(tail.subrange(0, i - 1));
        reveal_strlit("Content-Type");
        reveal_strlit("application/x-www-form-urlencoded");
    }
    let mut body: Vec<u8> = Vec::new();
    let form = match headers.get(ascii_bytes("Content-Type")) {
        Some(ct) => bytes_equal(ct, ascii_bytes("application/x-www-form-urlencoded")),
        None => false,
    };
    if method == HttpRequestType::POST && form && ls.len() - i > 1 {
        let last = ls.len() - 1;
        assert(lv[last as int] == ls@[last as int]@);
        body = copy_range(ls[last].as_slice(), 0, ls[last].len());
        assert(ls@[last as int]@.subrange(0, ls@[last as int]@.len() as int) =~= ls@[last as int]@);
    }
    Ok(
        ParseReturnData {
            http_version: version,
            http_request_type: method,
            request_path: path,
            headers,
            body,
        },
    )
}

// ---------------------------------------------------------------------------
// Round trip of the request line

/// Bytes that may stand inside a token of a request line: no whitespace, which
/// also rules out line ends.
pub open spec fn token_bytes(s: Seq<u8>) -> bool {
    forall|i: int| 0 <= i < s.len() ==> !is_space(#[trigger] s[i])
}

proof fn lemma_method_token(m: HttpRequestType)
    requires
        m != HttpRequestType::INVALID,
    ensures
        method_of(method_token(m)) == m,
        method_token(m).len() > 0,
        token_bytes(method_token(m)),
        forall|i: int| 0 <= i < method_token(m).len() ==> #[trigger] method_token(m)[i] != SLASH,
{
    reveal_strlit("GET");
    reveal_strlit("POST");
    reveal_strlit("HEAD");
    reveal_strlit("PUT");
    reveal_strlit("CONNECT");
    reveal_strlit("DELETE");
    reveal_strlit("TRACE");
    reveal_strlit("OPTIONS");
    let get = method_token(HttpRequestType::GET);
    let post = method_token(HttpRequestType::POST);
    let head = method_token(HttpRequestType::HEAD);
    let put = method_token(HttpRequestType::PUT);
    let connect = method_token(HttpRequestType::CONNECT);
    let delete = method_token(HttpRequestType::DELETE);
    let trace = method_token(HttpRequestType::TRACE);
    let options = method_token(HttpRequestType::OPTIONS);
    assert(get =~= seq![71u8, 69u8, 84u8]);
    assert(post =~= seq![80u8, 79u8, 83u8, 84u8]);
    assert(head =~= seq![72u8, 69u8, 65u8, 68u8]);
    assert(put =~= seq![80u8, 85u8, 84u8]);
    assert(connect =~= seq![67u8, 79u8, 78u8, 78u8, 69u8, 67u8, 84u8]);
    assert(delete =~= seq![68u8, 69u8, 76u8, 69u8, 84u8, 69u8]);
    assert(trace =~= seq![84u8, 82u8, 65u8, 67u8, 69u8]);
    assert(options =~= seq![79u8, 80u8, 84u8, 73u8, 79u8, 78u8, 83u8]);
    assert(get[0] != post[0] && get[0] != head[0] && get[0] != put[0] && get[0] != connect[0]
        && get[0] != delete[0] && get[0] != trace[0] && get[0] != options[0]);
    assert(post[1] != put[1] && post.len() != connect.len() && post[0] != delete[0]);
    assert(head[0] != put[0] && head[0] != connect[0] && head[0] != delete[0] && head[0]
        != trace[0]);
    assert(put.len() != connect.len() && put[0] != delete[0] && put[0] != trace[0]);
    assert(connect[0] != delete[0] && connect[0] != trace[0] && connect[0] != options[0]);
    assert(delete[0] != trace[0] && delete[0] != options[0]);
    assert(trace[0] != options[0]);
}

/// A token followed by one space trims back to the token.
proof fn lemma_trim_token_space(t: Seq<u8>)
    requires
        t.len() > 0,
        token_bytes(t),
    ensures
        trimmed(t + seq![32u8]) == t,
{
    let s = t + seq![32u8];
    assert(!is_space(s[0]));
    assert(trim_start(s) == s);
    assert(s.drop_last() =~= t);
    assert(trim_end(s) == trim_end(t));
    assert(!is_space(t.last()));
    assert(trim_end(t) == t);
}

/// `index_of` finds the first occurrence after a prefix without the byte.
proof fn lemma_index_after(s: Seq<u8>, b: u8, i: int)
    requires
        0 <= i < s.len(),
        s[i] == b,
        forall|j: int| 0 <= j < i ==> s[j] != b,
    ensures
        index_of(s, b) == i,
{
    lemma_index_of_unique(s, b, i);
}

/// The request line of a method of the table, a path and a version.
pub open spec fn request_line_of(m: HttpRequestType, path: Seq<u8>, version: Seq<u8>) -> Seq<u8> {
    method_token(m) + seq![32u8] + path + ascii(" HTTP/"@) + version
}

proof fn lemma_request_line_tokens(m: HttpRequestType, path: Seq<u8>, version: Seq<u8>)
    requires
        m != HttpRequestType::INVALID,
        path.len() > 0,
        path[0] == SLASH,
        token_bytes(path),
        forall|i: int| 0 <= i < path.len() ==> #[trigger] path[i] != LETTER_H,
    ensures
        request_line(request_line_of(m, path, version)) == if float_literal(version) {
            Ok::<_, RequestError>((m, path, version))
        } else {
            Err(RequestError::InvalidVersion)
        },
{
    reveal_strlit(" HTTP/");
    lemma_method_token(m);
    let tok = method_token(m);
    let proto = ascii(" HTTP/"@);
    assert(proto =~= seq![32u8, 72u8, 84u8, 84u8, 80u8, 47u8]);
    let line = request_line_of(m, path, version);
    let k = tok.len() as int;
    assert(line[k + 1] == SLASH);
    assert forall|j: int| 0 <= j < k + 1 implies line[j] != SLASH by {
        if j < k {
            assert(line[j] == tok[j]);
        }
    }
    lemma_index_after(line, SLASH, k + 1);
    assert(line.subrange(0, k + 1) =~= tok + seq![32u8]);
    lemma_trim_token_space(tok);
    let rest = line.subrange(k + 1, line.len() as int);
    let p = path.len() as int;
    assert(rest =~= path + proto + version);
    assert(rest[p + 1] == LETTER_H);
    assert forall|j: int| 0 <= j < p + 1 implies rest[j] != LETTER_H by {
        if j < p {
            assert(rest[j] == path[j]);
        }
    }
    lemma_index_after(rest, LETTER_H, p + 1);
    assert(rest.subrange(0, p + 1) =~= path + seq![32u8]);
    lemma_trim_token_space(path);
    let tail = rest.subrange(p + 1, rest.len() as int);
    assert(tail =~= seq![72u8, 84u8, 84u8, 80u8, 47u8] + version);
    lemma_index_after(tail, SLASH, 4);
    assert(tail.subrange(5, tail.len() as int) =~= version);
}

/// A line without a line feed, ended by CR LF, is the one line of its buffer.
proof fn lemma_single_line(line: Seq<u8>)
    requires
        forall|i: int| 0 <= i < line.len() ==> #[trigger] line[i] != LF,
    ensures
        lines(line + seq![CR, LF]) == seq![line],
{
    let buf = line + seq![CR, LF];
    let n = line.len() as int;
    assert forall|j: int| 0 <= j < n + 1 implies buf[j] != LF by {
        if j < n {
            assert(buf[j] == line[j]);
        }
    }
    lemma_index_after(buf, LF, n + 1);
    assert(buf.subrange(0, n + 1).drop_last() =~= line);
    assert(buf.subrange(0, n + 1).last() == CR);
    assert(strip_cr(buf.subrange(0, n + 1)) == line);
    assert(buf.subrange(n + 2, buf.len() as int) =~= Seq::<u8>::empty());
    assert(lines(Seq::<u8>::empty()) == Seq::<Seq<u8>>::empty());
    assert(index_of(buf, LF) == n + 1);
    assert(lines(buf) == seq![strip_cr(buf.subrange(0, n + 1))] + lines(
        buf.subrange(n + 2, buf.len() as int),
    ));
    assert(lines(buf) =~= seq![line]);
}

/// A request line `METHOD PATH HTTP/VERSION`, alone in the buffer and ended by
/// a line end, parses back to its tokens: the method of the table, the path
/// and the version, exactly when the version is a number. The path starts with
/// `/` and holds no `H` (the byte that ends it); no token holds whitespace.
pub proof fn lemma_request_line_round_trip(m: HttpRequestType, path: Seq<u8>, version: Seq<u8>)
    requires
        m != HttpRequestType::INVALID,
        path.len() > 0,
        path[0] == SLASH,
        token_bytes(path),
        forall|i: int| 0 <= i < path.len() ==> #[trigger] path[i] != LETTER_H,
        token_bytes(version),
    ensures
        request_line(request_line_of(m, path, version)) == if float_literal(version) {
            Ok::<_, RequestError>((m, path, version))
        } else {
            Err(RequestError::InvalidVersion)
        },
        parse_request(request_line_of(m, path, version) + seq![CR, LF]) is Ok <==> float_literal(
            version,
        ),
        parse_request(request_line_of(m, path, version) + seq![CR, LF]) matches Ok(r) ==> {
            &&& method_token(r.method) == method_token(m)
            &&& r.path == path
            &&& r.version == version
            &&& r.headers.len() == 0
            &&& r.body.len() == 0
        },
{
    lemma_request_line_tokens(m, path, version);
    lemma_method_token(m);
    reveal_strlit(" HTTP/");
    let tok = method_token(m);
    let proto = ascii(" HTTP/"@);
    assert(proto =~= seq![32u8, 72u8, 84u8, 84u8, 80u8, 47u8]);
    let line = request_line_of(m, path, version);
    let k = tok.len() as int;
    let p = path.len() as int;
    assert forall|j: int| 0 <= j < line.len() implies #[trigger] line[j] != LF by {
        if j < k {
            assert(line[j] == tok[j]);
            assert(!is_space(tok[j]));
        } else if k + 1 <= j < k + 1 + p {
            assert(line[j] == path[j - k - 1]);
            assert(!is_space(path[j - k - 1]));
        } else if k + 1 + p + 6 <= j {
            assert(line[j] == version[j - k - 1 - p - 6]);
            assert(!is_space(version[j - k - 1 - p - 6]));
        } else if j == k {
        } else {
            assert(line[j] == proto[j - k - 1 - p]);
        }
    }
    lemma_single_line(line);
    let ls = lines(line + seq![CR, LF]);
    assert(ls.drop_first() =~= Seq::<Seq<u8>>::empty());
    assert(ls.drop_first().subrange(0, 0) =~= Seq::<Seq<u8>>::empty());
}

} // verus!
