use vstd::prelude::*;

verus! {

/// A value outside the range that an integer operation accepts.
#[derive(Debug, Clone, PartialEq, Eq)]
pub struct IntValueError {
    pub source: String,
}

impl IntValueError {
    pub fn new(source: &str) -> (r: Self)
        ensures
            r.source@ == source@,
    {
        IntValueError { source: source.to_owned() }
    }
}

/// A request or frame that the server cannot work with.
#[derive(Debug, Clone, PartialEq, Eq)]
pub struct HttpServerError {
    pub source: String,
}

impl HttpServerError {
    pub fn new(source: &str) -> (r: Self)
        ensures
            r.source@ == source@,
    {
        HttpServerError { source: source.to_owned() }
    }
}

/// A byte pattern that does not occur where it was looked for.
#[derive(Debug, Clone, PartialEq, Eq)]
pub struct SubStringError {
    pub source: String,
}

impl SubStringError {
    pub fn new(source: &str) -> (r: Self)
        ensures
            r.source@ == source@,
    {
        SubStringError { source: source.to_owned() }
    }
}

/// Why a request could not be parsed.
#[derive(Debug, Clone, Copy, PartialEq, Eq, Structural)]
pub enum RequestError {
    /// The buffer holds no line at all.
    Empty,
    /// The request line has no `/` after the method.
    MissingMethodSeparator,
    /// The request line has no `H` that starts the protocol name.
    MissingVersionMarker,
    /// The protocol name has no `/` before the version.
    MissingVersionSeparator,
    /// The version is not a number.
    InvalidVersion,
}

/// Why a WebSocket frame could not be read or written.
#[derive(Debug, Clone, Copy, PartialEq, Eq, Structural)]
pub enum FrameError {
    /// The bytes end before the frame header does.
    Truncated,
    /// The payload is longer or shorter than the header declares.
    LengthMismatch,
    /// A frame sent by the server must not be masked.
    MaskedServerFrame,
    /// The opcode has no four-bit code.
    InvalidOpCode,
}

/// Configuration that the server cannot start with.
#[derive(Debug, Clone, Copy, PartialEq, Eq, Structural)]
pub enum ConfigError {
    /// A worker pool needs at least one worker.
    ZeroThreads,
    /// The listen address is a multicast address.
    MulticastAddress,
    /// The listen address lies in a range reserved for documentation.
    DocumentationAddress,
    /// The proxy mode is declared but not implemented.
    ProxyNotImplemented,
}

/// The error type of the library.
#[derive(Debug, Clone, PartialEq, Eq)]
pub enum StdStupidError {
    HttpServer(HttpServerError),
    IntValue(IntValueError),
    SubString(SubStringError),
    Request(RequestError),
    Frame(FrameError),
    Configuration(ConfigError),
}

} // verus!
