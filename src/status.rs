//! The status codes of HTTP and their reason phrases.

use vstd::prelude::*;
use vstd::utf8::is_ascii_chars;

verus! {

/// The registered status codes; `Unknown` holds any other code.
#[derive(Debug, Clone, Copy, PartialEq, Eq, Structural, PartialOrd, Ord, Hash)]
pub enum HttpStatusCode {
    /// 100 Continue (RFC 7231)
    Continue,

    /// 101 Switching Protocols (RFC 7231)
    SwitchingProtocols,

    /// 102 Processing (RFC 2518)
    Processing,

    /// 103 Early Hints (RFC 8297)
    EarlyHints,

    /// 200 OK (RFC 7231)
    OK,

    /// 201 Created (RFC 7231)
    Created,

    /// 202 Accepted (RFC 7231)
    Accepted,

    /// 203 Non-Authoritative Information (RFC 7231)
    NonAuthoritativeInformation,

    /// 204 No Content (RFC 7231)
    NoContent,

    /// 205 Reset Content (RFC 7231)
    ResetContent,

    /// 206 Partial Content (RFC 7233)
    PartialContent,

    /// 207 Multi-Status (RFC 4918)
    MultiStatus,

    /// 208 Already Reported (RFC 5842)
    AlreadyReported,

    /// 226 IM Used (RFC 3229)
    IMUsed,

    /// 300 Multiple Choices (RFC 7231)
    MultipleChoices,

    /// 301 Moved Permanently (RFC 7231)
    MovedPermanently,

    /// 302 Found (RFC 7231)
    Found,

    /// 303 See Other (RFC 7231)
    SeeOther,

    /// 304 Not Modified (RFC 7232)
    NotModified,

    /// 305 Use Proxy (RFC 7231)
    UseProxy,

    /// 306 Switch Proxy (RFC 7231)
    SwitchProxy,

    /// 307 Temporary Redirect (RFC 7231)
    TemporaryRedirect,

    /// 308 Permanent Redirect (RFC 7538)
    PermanentRedirect,

    /// 400 Bad Request (RFC 7231)
    BadRequest,

    /// 401 Unauthorized (RFC 7235)
    Unauthorized,

    /// 402 Payment Required (RFC 7231)
    PaymentRequired,

    /// 403 Forbidden (RFC 7231)
    Forbidden,

    /// 404 Not Found (RFC 7231)
    NotFound,

    /// 405 Method Not Allowed (RFC 7231)
    MethodNotAllowed,

    /// 406 Not Acceptable (RFC 7231)
    NotAcceptable,

    /// 407 Proxy Authentication Required (RFC 7235)
    ProxyAuthenticationRequired,

    /// 408 Request Timeout (RFC 7231)
    RequestTimeout,

    /// 409 Conflict (RFC 7231)
    Conflict,

    /// 410 Gone (RFC 7231)
    Gone,

    /// 411 Length Required (RFC 7231)
    LengthRequired,

    /// 412 Precondition Failed (RFC 7232)
    PreconditionFailed,

    /// 413 Payload Too Large (RFC 7231)
    PayloadTooLarge,

    /// 414 URI Too Long (RFC 7231)
    UriTooLong,

    /// 415 Unsupported Media Type (RFC 7231)
    UnsupportedMediaType,

    /// 416 Range Not Satisfiable (RFC 7233)
    RangeNotSatisfiable,

    /// 417 Expectation Failed (RFC 7231)
    ExpectationFailed,

    /// 418 I'm a teapot (RFC 2324)
    ImATeapot,

    /// 421 Misdirected Request (RFC 7540)
    MisdirectedRequest,

    /// 422 Unprocessable Entity (RFC 4918)
    UnprocessableEntity,

    /// 423 Locked (RFC 4918)
    Locked,

    /// 424 Failed Dependency (RFC 4918)
    FailedDependency,

    /// 426 Upgrade Required (RFC 7231)
    UpgradeRequired,

    /// 428 Precondition Required (RFC 6585)
    PreconditionRequired,

    /// 429 Too Many Requests (RFC 6585)
    TooManyRequests,

    /// 431 Request Header Fields Too Large (RFC 6585)
    RequestHeaderFieldsTooLarge,

    /// 451 Unavailable For Legal Reasons (RFC 7725)
    UnavailableForLegalReasons,

    /// 500 Internal Server Error (RFC 7231)
    InternalServerError,

    /// 501 Not Implemented (RFC 7231)
    NotImplemented,

    /// 502 Bad Gateway (RFC 7231)
    BadGateway,

    /// 503 Service Unavailable (RFC 7231)
    ServiceUnavailable,

    /// 504 Gateway Timeout (RFC 7231)
    GatewayTimeout,

    /// 505 HTTP Version Not Supported (RFC 7231)
    HttpVersionNotSupported,

    /// 506 Variant Also Negotiates (RFC 2295)
    VariantAlsoNegotiates,

    /// 507 Insufficient Storage (RFC 4918)
    InsufficientStorage,

    /// 508 Loop Detected (RFC 5842)
    LoopDetected,

    /// 510 Not Extended (RFC 2774)
    NotExtended,

    /// 511 Network Authentication Required (RFC 6585)
    NetworkAuthenticationRequired,

    /// Unknown status code
    Unknown(u16),
}

/// The status that a code stands for.
pub open spec fn status_of(code: u16) -> HttpStatusCode {
    match code {
        100 => HttpStatusCode::Continue,
        101 => HttpStatusCode::SwitchingProtocols,
        102 => HttpStatusCode::Processing,
        103 => HttpStatusCode::EarlyHints,
        200 => HttpStatusCode::OK,
        201 => HttpStatusCode::Created,
        202 => HttpStatusCode::Accepted,
        203 => HttpStatusCode::NonAuthoritativeInformation,
        204 => HttpStatusCode::NoContent,
        205 => HttpStatusCode::ResetContent,
        206 => HttpStatusCode::PartialContent,
        207 => HttpStatusCode::MultiStatus,
        208 => HttpStatusCode::AlreadyReported,
        226 => HttpStatusCode::IMUsed,
        300 => HttpStatusCode::MultipleChoices,
        301 => HttpStatusCode::MovedPermanently,
        302 => HttpStatusCode::Found,
        303 => HttpStatusCode::SeeOther,
        304 => HttpStatusCode::NotModified,
        305 => HttpStatusCode::UseProxy,
        306 => HttpStatusCode::SwitchProxy,
        307 => HttpStatusCode::TemporaryRedirect,
        308 => HttpStatusCode::PermanentRedirect,
        400 => HttpStatusCode::BadRequest,
        401 => HttpStatusCode::Unauthorized,
        402 => HttpStatusCode::PaymentRequired,
        403 => HttpStatusCode::Forbidden,
        404 => HttpStatusCode::NotFound,
        405 => HttpStatusCode::MethodNotAllowed,
        406 => HttpStatusCode::NotAcceptable,
        407 => HttpStatusCode::ProxyAuthenticationRequired,
        408 => HttpStatusCode::RequestTimeout,
        409 => HttpStatusCode::Conflict,
        410 => HttpStatusCode::Gone,
        411 => HttpStatusCode::LengthRequired,
        412 => HttpStatusCode::PreconditionFailed,
        413 => HttpStatusCode::PayloadTooLarge,
        414 => HttpStatusCode::UriTooLong,
        415 => HttpStatusCode::UnsupportedMediaType,
        416 => HttpStatusCode::RangeNotSatisfiable,
        417 => HttpStatusCode::ExpectationFailed,
        418 => HttpStatusCode::ImATeapot,
        421 => HttpStatusCode::MisdirectedRequest,
        422 => HttpStatusCode::UnprocessableEntity,
        423 => HttpStatusCode::Locked,
        424 => HttpStatusCode::FailedDependency,
        426 => HttpStatusCode::UpgradeRequired,
        428 => HttpStatusCode::PreconditionRequired,
        429 => HttpStatusCode::TooManyRequests,
        431 => HttpStatusCode::RequestHeaderFieldsTooLarge,
        451 => HttpStatusCode::UnavailableForLegalReasons,
        500 => HttpStatusCode::InternalServerError,
        501 => HttpStatusCode::NotImplemented,
        502 => HttpStatusCode::BadGateway,
        503 => HttpStatusCode::ServiceUnavailable,
        504 => HttpStatusCode::GatewayTimeout,
        505 => HttpStatusCode::HttpVersionNotSupported,
        506 => HttpStatusCode::VariantAlsoNegotiates,
        507 => HttpStatusCode::InsufficientStorage,
        508 => HttpStatusCode::LoopDetected,
        510 => HttpStatusCode::NotExtended,
        511 => HttpStatusCode::NetworkAuthenticationRequired,
        _ => HttpStatusCode::Unknown(code),
    }
}

/// Whether the code is in the table.
pub open spec fn is_registered(code: u16) -> bool {
    !(status_of(code) is Unknown)
}

/// The reason phrase of each status; `Unknown` for codes outside the table,
/// which a status line writes with the code: `Unknown(<code>)`.
pub open spec fn reason_text(s: HttpStatusCode) -> Seq<char> {
    match s {
        HttpStatusCode::Continue => "Continue"@,
        HttpStatusCode::SwitchingProtocols => "Switching Protocols"@,
        HttpStatusCode::Processing => "Processing"@,
        HttpStatusCode::EarlyHints => "Early Hints"@,
        HttpStatusCode::OK => "OK"@,
        HttpStatusCode::Created => "Created"@,
        HttpStatusCode::Accepted => "Accepted"@,
        HttpStatusCode::NonAuthoritativeInformation => "Non-Authoritative Information"@,
        HttpStatusCode::NoContent => "No Content"@,
        HttpStatusCode::ResetContent => "Reset Content"@,
        HttpStatusCode::PartialContent => "Partial Content"@,
        HttpStatusCode::MultiStatus => "Multi-Status"@,
        HttpStatusCode::AlreadyReported => "Already Reported"@,
        HttpStatusCode::IMUsed => "IM Used"@,
        HttpStatusCode::MultipleChoices => "Multiple Choices"@,
        HttpStatusCode::MovedPermanently => "Moved Permanently"@,
        HttpStatusCode::Found => "Found"@,
        HttpStatusCode::SeeOther => "See Other"@,
        HttpStatusCode::NotModified => "Not Modified"@,
        HttpStatusCode::UseProxy => "Use Proxy"@,
        HttpStatusCode::SwitchProxy => "Switch Proxy"@,
        HttpStatusCode::TemporaryRedirect => "Temporary Redirect"@,
        HttpStatusCode::PermanentRedirect => "Permanent Redirect"@,
        HttpStatusCode::BadRequest => "Bad Request"@,
        HttpStatusCode::Unauthorized => "Unauthorized"@,
        HttpStatusCode::PaymentRequired => "Payment Required"@,
        HttpStatusCode::Forbidden => "Forbidden"@,
        HttpStatusCode::NotFound => "Not Found"@,
        HttpStatusCode::MethodNotAllowed => "Method Not Allowed"@,
        HttpStatusCode::NotAcceptable => "Not Acceptable"@,
        HttpStatusCode::ProxyAuthenticationRequired => "Proxy Authentication Required"@,
        HttpStatusCode::RequestTimeout => "Request Timeout"@,
        HttpStatusCode::Conflict => "Conflict"@,
        HttpStatusCode::Gone => "Gone"@,
        HttpStatusCode::LengthRequired => "Length Required"@,
        HttpStatusCode::PreconditionFailed => "Precondition Failed"@,
        HttpStatusCode::PayloadTooLarge => "Payload Too Large"@,
        HttpStatusCode::UriTooLong => "URI Too Long"@,
        HttpStatusCode::UnsupportedMediaType => "Unsupported Media Type"@,
        HttpStatusCode::RangeNotSatisfiable => "Range Not Satisfiable"@,
        HttpStatusCode::ExpectationFailed => "Expectation Failed"@,
        HttpStatusCode::ImATeapot => "I'm a teapot"@,
        HttpStatusCode::MisdirectedRequest => "Misdirected Request"@,
        HttpStatusCode::UnprocessableEntity => "Unprocessable Entity"@,
        HttpStatusCode::Locked => "Locked"@,
        HttpStatusCode::FailedDependency => "Failed Dependency"@,
        HttpStatusCode::UpgradeRequired => "Upgrade Required"@,
        HttpStatusCode::PreconditionRequired => "Precondition Required"@,
        HttpStatusCode::TooManyRequests => "Too Many Requests"@,
        HttpStatusCode::RequestHeaderFieldsTooLarge => "Request Header Fields Too Large"@,
        HttpStatusCode::UnavailableForLegalReasons => "Unavailable For Legal Reasons"@,
        HttpStatusCode::InternalServerError => "Internal Server Error"@,
        HttpStatusCode::NotImplemented => "Not Implemented"@,
        HttpStatusCode::BadGateway => "Bad Gateway"@,
        HttpStatusCode::ServiceUnavailable => "Service Unavailable"@,
        HttpStatusCode::GatewayTimeout => "Gateway Timeout"@,
        HttpStatusCode::HttpVersionNotSupported => "HTTP Version Not Supported"@,
        HttpStatusCode::VariantAlsoNegotiates => "Variant Also Negotiates"@,
        HttpStatusCode::InsufficientStorage => "Insufficient Storage"@,
        HttpStatusCode::LoopDetected => "Loop Detected"@,
        HttpStatusCode::NotExtended => "Not Extended"@,
        HttpStatusCode::NetworkAuthenticationRequired => "Network Authentication Required"@,
        HttpStatusCode::Unknown(_) => "Unknown"@,
    }
}

/// The numeric code of each status.
pub open spec fn code_of(s: HttpStatusCode) -> u16 {
    match s {
        HttpStatusCode::Continue => 100,
        HttpStatusCode::SwitchingProtocols => 101,
        HttpStatusCode::Processing => 102,
        HttpStatusCode::EarlyHints => 103,
        HttpStatusCode::OK => 200,
        HttpStatusCode::Created => 201,
        HttpStatusCode::Accepted => 202,
        HttpStatusCode::NonAuthoritativeInformation => 203,
        HttpStatusCode::NoContent => 204,
        HttpStatusCode::ResetContent => 205,
        HttpStatusCode::PartialContent => 206,
        HttpStatusCode::MultiStatus => 207,
        HttpStatusCode::AlreadyReported => 208,
        HttpStatusCode::IMUsed => 226,
        HttpStatusCode::MultipleChoices => 300,
        HttpStatusCode::MovedPermanently => 301,
        HttpStatusCode::Found => 302,
        HttpStatusCode::SeeOther => 303,
        HttpStatusCode::NotModified => 304,
        HttpStatusCode::UseProxy => 305,
        HttpStatusCode::SwitchProxy => 306,
        HttpStatusCode::TemporaryRedirect => 307,
        HttpStatusCode::PermanentRedirect => 308,
        HttpStatusCode::BadRequest => 400,
        HttpStatusCode::Unauthorized => 401,
        HttpStatusCode::PaymentRequired => 402,
        HttpStatusCode::Forbidden => 403,
        HttpStatusCode::NotFound => 404,
        HttpStatusCode::MethodNotAllowed => 405,
        HttpStatusCode::NotAcceptable => 406,
        HttpStatusCode::ProxyAuthenticationRequired => 407,
        HttpStatusCode::RequestTimeout => 408,
        HttpStatusCode::Conflict => 409,
        HttpStatusCode::Gone => 410,
        HttpStatusCode::LengthRequired => 411,
        HttpStatusCode::PreconditionFailed => 412,
        HttpStatusCode::PayloadTooLarge => 413,
        HttpStatusCode::UriTooLong => 414,
        HttpStatusCode::UnsupportedMediaType => 415,
        HttpStatusCode::RangeNotSatisfiable => 416,
        HttpStatusCode::ExpectationFailed => 417,
        HttpStatusCode::ImATeapot => 418,
        HttpStatusCode::MisdirectedRequest => 421,
        HttpStatusCode::UnprocessableEntity => 422,
        HttpStatusCode::Locked => 423,
        HttpStatusCode::FailedDependency => 424,
        HttpStatusCode::UpgradeRequired => 426,
        HttpStatusCode::PreconditionRequired => 428,
        HttpStatusCode::TooManyRequests => 429,
        HttpStatusCode::RequestHeaderFieldsTooLarge => 431,
        HttpStatusCode::UnavailableForLegalReasons => 451,
        HttpStatusCode::InternalServerError => 500,
        HttpStatusCode::NotImplemented => 501,
        HttpStatusCode::BadGateway => 502,
        HttpStatusCode::ServiceUnavailable => 503,
        HttpStatusCode::GatewayTimeout => 504,
        HttpStatusCode::HttpVersionNotSupported => 505,
        HttpStatusCode::VariantAlsoNegotiates => 506,
        HttpStatusCode::InsufficientStorage => 507,
        HttpStatusCode::LoopDetected => 508,
        HttpStatusCode::NotExtended => 510,
        HttpStatusCode::NetworkAuthenticationRequired => 511,
        HttpStatusCode::Unknown(c) => c,
    }
}

/// Every reason phrase is ASCII text.
pub proof fn lemma_reason_ascii(s: HttpStatusCode)
    ensures
        is_ascii_chars(reason_text(s)),
{
    match s {
        HttpStatusCode::Continue => {
            reveal_strlit("Continue");
        },
        HttpStatusCode::SwitchingProtocols => {
            reveal_strlit("Switching Protocols");
        },
        HttpStatusCode::Processing => {
            reveal_strlit("Processing");
        },
        HttpStatusCode::EarlyHints => {
            reveal_strlit("Early Hints");
        },
        HttpStatusCode::OK => {
            reveal_strlit("OK");
        },
        HttpStatusCode::Created => {
            reveal_strlit("Created");
        },
        HttpStatusCode::Accepted => {
            reveal_strlit("Accepted");
        },
        HttpStatusCode::NonAuthoritativeInformation => {
            reveal_strlit("Non-Authoritative Information");
        },
        HttpStatusCode::NoContent => {
            reveal_strlit("No Content");
        },
        HttpStatusCode::ResetContent => {
            reveal_strlit("Reset Content");
        },
        HttpStatusCode::PartialContent => {
            reveal_strlit("Partial Content");
        },
        HttpStatusCode::MultiStatus => {
            reveal_strlit("Multi-Status");
        },
        HttpStatusCode::AlreadyReported => {
            reveal_strlit("Already Reported");
        },
        HttpStatusCode::IMUsed => {
            reveal_strlit("IM Used");
        },
        HttpStatusCode::MultipleChoices => {
            reveal_strlit("Multiple Choices");
        },
        HttpStatusCode::MovedPermanently => {
            reveal_strlit("Moved Permanently");
        },
        HttpStatusCode::Found => {
            reveal_strlit("Found");
        },
        HttpStatusCode::SeeOther => {
            reveal_strlit("See Other");
        },
        HttpStatusCode::NotModified => {
            reveal_strlit("Not Modified");
        },
        HttpStatusCode::UseProxy => {
            reveal_strlit("Use Proxy");
        },
        HttpStatusCode::SwitchProxy => {
            reveal_strlit("Switch Proxy");
        },
        HttpStatusCode::TemporaryRedirect => {
            reveal_strlit("Temporary Redirect");
        },
        HttpStatusCode::PermanentRedirect => {
            reveal_strlit("Permanent Redirect");
        },
        HttpStatusCode::BadRequest => {
            reveal_strlit("Bad Request");
        },
        HttpStatusCode::Unauthorized => {
            reveal_strlit("Unauthorized");
        },
        HttpStatusCode::PaymentRequired => {
            reveal_strlit("Payment Required");
        },
        HttpStatusCode::Forbidden => {
            reveal_strlit("Forbidden");
        },
        HttpStatusCode::NotFound => {
            reveal_strlit("Not Found");
        },
        HttpStatusCode::MethodNotAllowed => {
            reveal_strlit("Method Not Allowed");
        },
        HttpStatusCode::NotAcceptable => {
            reveal_strlit("Not Acceptable");
        },
        HttpStatusCode::ProxyAuthenticationRequired => {
            reveal_strlit("Proxy Authentication Required");
        },
        HttpStatusCode::RequestTimeout => {
            reveal_strlit("Request Timeout");
        },
        HttpStatusCode::Conflict => {
            reveal_strlit("Conflict");
        },
        HttpStatusCode::Gone => {
            reveal_strlit("Gone");
        },
        HttpStatusCode::LengthRequired => {
            reveal_strlit("Length Required");
        },
        HttpStatusCode::PreconditionFailed => {
            reveal_strlit("Precondition Failed");
        },
        HttpStatusCode::PayloadTooLarge => {
            reveal_strlit("Payload Too Large");
        },
        HttpStatusCode::UriTooLong => {
            reveal_strlit("URI Too Long");
        },
        HttpStatusCode::UnsupportedMediaType => {
            reveal_strlit("Unsupported Media Type");
        },
        HttpStatusCode::RangeNotSatisfiable => {
            reveal_strlit("Range Not Satisfiable");
        },
        HttpStatusCode::ExpectationFailed => {
            reveal_strlit("Expectation Failed");
        },
        HttpStatusCode::ImATeapot => {
            reveal_strlit("I'm a teapot");
        },
        HttpStatusCode::MisdirectedRequest => {
            reveal_strlit("Misdirected Request");
        },
        HttpStatusCode::UnprocessableEntity => {
            reveal_strlit("Unprocessable Entity");
        },
        HttpStatusCode::Locked => {
            reveal_strlit("Locked");
        },
        HttpStatusCode::FailedDependency => {
            reveal_strlit("Failed Dependency");
        },
        HttpStatusCode::UpgradeRequired => {
            reveal_strlit("Upgrade Required");
        },
        HttpStatusCode::PreconditionRequired => {
            reveal_strlit("Precondition Required");
        },
        HttpStatusCode::TooManyRequests => {
            reveal_strlit("Too Many Requests");
        },
        HttpStatusCode::RequestHeaderFieldsTooLarge => {
            reveal_strlit("Request Header Fields Too Large");
        },
        HttpStatusCode::UnavailableForLegalReasons => {
            reveal_strlit("Unavailable For Legal Reasons");
        },
        HttpStatusCode::InternalServerError => {
            reveal_strlit("Internal Server Error");
        },
        HttpStatusCode::NotImplemented => {
            reveal_strlit("Not Implemented");
        },
        HttpStatusCode::BadGateway => {
            reveal_strlit("Bad Gateway");
        },
        HttpStatusCode::ServiceUnavailable => {
            reveal_strlit("Service Unavailable");
        },
        HttpStatusCode::GatewayTimeout => {
            reveal_strlit("Gateway Timeout");
        },
        HttpStatusCode::HttpVersionNotSupported => {
            reveal_strlit("HTTP Version Not Supported");
        },
        HttpStatusCode::VariantAlsoNegotiates => {
            reveal_strlit("Variant Also Negotiates");
        },
        HttpStatusCode::InsufficientStorage => {
            reveal_strlit("Insufficient Storage");
        },
        HttpStatusCode::LoopDetected => {
            reveal_strlit("Loop Detected");
        },
        HttpStatusCode::NotExtended => {
            reveal_strlit("Not Extended");
        },
        HttpStatusCode::NetworkAuthenticationRequired => {
            reveal_strlit("Network Authentication Required");
        },
        HttpStatusCode::Unknown(_) => {
            reveal_strlit("Unknown");
        },
    }
}

impl HttpStatusCode {
    /// The reason phrase of the status.
    pub fn reason_phrase(&self) -> (r: &'static str)
        ensures
            r@ == reason_text(*self),
    {
        match self {
            HttpStatusCode::Continue => "Continue",
            HttpStatusCode::SwitchingProtocols => "Switching Protocols",
            HttpStatusCode::Processing => "Processing",
            HttpStatusCode::EarlyHints => "Early Hints",
            HttpStatusCode::OK => "OK",
            HttpStatusCode::Created => "Created",
            HttpStatusCode::Accepted => "Accepted",
            HttpStatusCode::NonAuthoritativeInformation => "Non-Authoritative Information",
            HttpStatusCode::NoContent => "No Content",
            HttpStatusCode::ResetContent => "Reset Content",
            HttpStatusCode::PartialContent => "Partial Content",
            HttpStatusCode::MultiStatus => "Multi-Status",
            HttpStatusCode::AlreadyReported => "Already Reported",
            HttpStatusCode::IMUsed => "IM Used",
            HttpStatusCode::MultipleChoices => "Multiple Choices",
            HttpStatusCode::MovedPermanently => "Moved Permanently",
            HttpStatusCode::Found => "Found",
            HttpStatusCode::SeeOther => "See Other",
            HttpStatusCode::NotModified => "Not Modified",
            HttpStatusCode::UseProxy => "Use Proxy",
            HttpStatusCode::SwitchProxy => "Switch Proxy",
            HttpStatusCode::TemporaryRedirect => "Temporary Redirect",
            HttpStatusCode::PermanentRedirect => "Permanent Redirect",
            HttpStatusCode::BadRequest => "Bad Request",
            HttpStatusCode::Unauthorized => "Unauthorized",
            HttpStatusCode::PaymentRequired => "Payment Required",
            HttpStatusCode::Forbidden => "Forbidden",
            HttpStatusCode::NotFound => "Not Found",
            HttpStatusCode::MethodNotAllowed => "Method Not Allowed",
            HttpStatusCode::NotAcceptable => "Not Acceptable",
            HttpStatusCode::ProxyAuthenticationRequired => "Proxy Authentication Required",
            HttpStatusCode::RequestTimeout => "Request Timeout",
            HttpStatusCode::Conflict => "Conflict",
            HttpStatusCode::Gone => "Gone",
            HttpStatusCode::LengthRequired => "Length Required",
            HttpStatusCode::PreconditionFailed => "Precondition Failed",
            HttpStatusCode::PayloadTooLarge => "Payload Too Large",
            HttpStatusCode::UriTooLong => "URI Too Long",
            HttpStatusCode::UnsupportedMediaType => "Unsupported Media Type",
            HttpStatusCode::RangeNotSatisfiable => "Range Not Satisfiable",
            HttpStatusCode::ExpectationFailed => "Expectation Failed",
            HttpStatusCode::ImATeapot => "I'm a teapot",
            HttpStatusCode::MisdirectedRequest => "Misdirected Request",
            HttpStatusCode::UnprocessableEntity => "Unprocessable Entity",
            HttpStatusCode::Locked => "Locked",
            HttpStatusCode::FailedDependency => "Failed Dependency",
            HttpStatusCode::UpgradeRequired => "Upgrade Required",
            HttpStatusCode::PreconditionRequired => "Precondition Required",
            HttpStatusCode::TooManyRequests => "Too Many Requests",
            HttpStatusCode::RequestHeaderFieldsTooLarge => "Request Header Fields Too Large",
            HttpStatusCode::UnavailableForLegalReasons => "Unavailable For Legal Reasons",
            HttpStatusCode::InternalServerError => "Internal Server Error",
            HttpStatusCode::NotImplemented => "Not Implemented",
            HttpStatusCode::BadGateway => "Bad Gateway",
            HttpStatusCode::ServiceUnavailable => "Service Unavailable",
            HttpStatusCode::GatewayTimeout => "Gateway Timeout",
            HttpStatusCode::HttpVersionNotSupported => "HTTP Version Not Supported",
            HttpStatusCode::VariantAlsoNegotiates => "Variant Also Negotiates",
            HttpStatusCode::InsufficientStorage => "Insufficient Storage",
            HttpStatusCode::LoopDetected => "Loop Detected",
            HttpStatusCode::NotExtended => "Not Extended",
            HttpStatusCode::NetworkAuthenticationRequired => "Network Authentication Required",
            HttpStatusCode::Unknown(_) => "Unknown",
        }
    }


    /// The numeric code of the status.
    pub fn code(&self) -> (r: u16)
        ensures
            r == code_of(*self),
    {
        match self {
            HttpStatusCode::Continue => 100,
            HttpStatusCode::SwitchingProtocols => 101,
            HttpStatusCode::Processing => 102,
            HttpStatusCode::EarlyHints => 103,
            HttpStatusCode::OK => 200,
            HttpStatusCode::Created => 201,
            HttpStatusCode::Accepted => 202,
            HttpStatusCode::NonAuthoritativeInformation => 203,
            HttpStatusCode::NoContent => 204,
            HttpStatusCode::ResetContent => 205,
            HttpStatusCode::PartialContent => 206,
            HttpStatusCode::MultiStatus => 207,
            HttpStatusCode::AlreadyReported => 208,
            HttpStatusCode::IMUsed => 226,
            HttpStatusCode::MultipleChoices => 300,
            HttpStatusCode::MovedPermanently => 301,
            HttpStatusCode::Found => 302,
            HttpStatusCode::SeeOther => 303,
            HttpStatusCode::NotModified => 304,
            HttpStatusCode::UseProxy => 305,
            HttpStatusCode::SwitchProxy => 306,
            HttpStatusCode::TemporaryRedirect => 307,
            HttpStatusCode::PermanentRedirect => 308,
            HttpStatusCode::BadRequest => 400,
            HttpStatusCode::Unauthorized => 401,
            HttpStatusCode::PaymentRequired => 402,
            HttpStatusCode::Forbidden => 403,
            HttpStatusCode::NotFound => 404,
            HttpStatusCode::MethodNotAllowed => 405,
            HttpStatusCode::NotAcceptable => 406,
            HttpStatusCode::ProxyAuthenticationRequired => 407,
            HttpStatusCode::RequestTimeout => 408,
            HttpStatusCode::Conflict => 409,
            HttpStatusCode::Gone => 410,
            HttpStatusCode::LengthRequired => 411,
            HttpStatusCode::PreconditionFailed => 412,
            HttpStatusCode::PayloadTooLarge => 413,
            HttpStatusCode::UriTooLong => 414,
            HttpStatusCode::UnsupportedMediaType => 415,
            HttpStatusCode::RangeNotSatisfiable => 416,
            HttpStatusCode::ExpectationFailed => 417,
            HttpStatusCode::ImATeapot => 418,
            HttpStatusCode::MisdirectedRequest => 421,
            HttpStatusCode::UnprocessableEntity => 422,
            HttpStatusCode::Locked => 423,
            HttpStatusCode::FailedDependency => 424,
            HttpStatusCode::UpgradeRequired => 426,
            HttpStatusCode::PreconditionRequired => 428,
            HttpStatusCode::TooManyRequests => 429,
            HttpStatusCode::RequestHeaderFieldsTooLarge => 431,
            HttpStatusCode::UnavailableForLegalReasons => 451,
            HttpStatusCode::InternalServerError => 500,
            HttpStatusCode::NotImplemented => 501,
            HttpStatusCode::BadGateway => 502,
            HttpStatusCode::ServiceUnavailable => 503,
            HttpStatusCode::GatewayTimeout => 504,
            HttpStatusCode::HttpVersionNotSupported => 505,
            HttpStatusCode::VariantAlsoNegotiates => 506,
            HttpStatusCode::InsufficientStorage => 507,
            HttpStatusCode::LoopDetected => 508,
            HttpStatusCode::NotExtended => 510,
            HttpStatusCode::NetworkAuthenticationRequired => 511,
            HttpStatusCode::Unknown(c) => *c,
        }
    }
}

impl From<u16> for HttpStatusCode {
    fn from(code: u16) -> Self {
        match code {
            100 => HttpStatusCode::Continue,
            101 => HttpStatusCode::SwitchingProtocols,
            102 => HttpStatusCode::Processing,
            103 => HttpStatusCode::EarlyHints,
            200 => HttpStatusCode::OK,
            201 => HttpStatusCode::Created,
            202 => HttpStatusCode::Accepted,
            203 => HttpStatusCode::NonAuthoritativeInformation,
            204 => HttpStatusCode::NoContent,
            205 => HttpStatusCode::ResetContent,
            206 => HttpStatusCode::PartialContent,
            207 => HttpStatusCode::MultiStatus,
            208 => HttpStatusCode::AlreadyReported,
            226 => HttpStatusCode::IMUsed,
            300 => HttpStatusCode::MultipleChoices,
            301 => HttpStatusCode::MovedPermanently,
            302 => HttpStatusCode::Found,
            303 => HttpStatusCode::SeeOther,
            304 => HttpStatusCode::NotModified,
            305 => HttpStatusCode::UseProxy,
            306 => HttpStatusCode::SwitchProxy,
            307 => HttpStatusCode::TemporaryRedirect,
            308 => HttpStatusCode::PermanentRedirect,
            400 => HttpStatusCode::BadRequest,
            401 => HttpStatusCode::Unauthorized,
            402 => HttpStatusCode::PaymentRequired,
            403 => HttpStatusCode::Forbidden,
            404 => HttpStatusCode::NotFound,
            405 => HttpStatusCode::MethodNotAllowed,
            406 => HttpStatusCode::NotAcceptable,
            407 => HttpStatusCode::ProxyAuthenticationRequired,
            408 => HttpStatusCode::RequestTimeout,
            409 => HttpStatusCode::Conflict,
            410 => HttpStatusCode::Gone,
            411 => HttpStatusCode::LengthRequired,
            412 => HttpStatusCode::PreconditionFailed,
            413 => HttpStatusCode::PayloadTooLarge,
            414 => HttpStatusCode::UriTooLong,
            415 => HttpStatusCode::UnsupportedMediaType,
            416 => HttpStatusCode::RangeNotSatisfiable,
            417 => HttpStatusCode::ExpectationFailed,
            418 => HttpStatusCode::ImATeapot,
            421 => HttpStatusCode::MisdirectedRequest,
            422 => HttpStatusCode::UnprocessableEntity,
            423 => HttpStatusCode::Locked,
            424 => HttpStatusCode::FailedDependency,
            426 => HttpStatusCode::UpgradeRequired,
            428 => HttpStatusCode::PreconditionRequired,
            429 => HttpStatusCode::TooManyRequests,
            431 => HttpStatusCode::RequestHeaderFieldsTooLarge,
            451 => HttpStatusCode::UnavailableForLegalReasons,
            500 => HttpStatusCode::InternalServerError,
            501 => HttpStatusCode::NotImplemented,
            502 => HttpStatusCode::BadGateway,
            503 => HttpStatusCode::ServiceUnavailable,
            504 => HttpStatusCode::GatewayTimeout,
            505 => HttpStatusCode::HttpVersionNotSupported,
            506 => HttpStatusCode::VariantAlsoNegotiates,
            507 => HttpStatusCode::InsufficientStorage,
            508 => HttpStatusCode::LoopDetected,
            510 => HttpStatusCode::NotExtended,
            511 => HttpStatusCode::NetworkAuthenticationRequired,
            _ => HttpStatusCode::Unknown(code),
        }
    }
}

impl vstd::std_specs::convert::FromSpecImpl<u16> for HttpStatusCode {
    open spec fn obeys_from_spec() -> bool {
        true
    }

    open spec fn from_spec(v: u16) -> Self {
        status_of(v)
    }
}

} // verus!
