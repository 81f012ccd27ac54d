//! The status codes that a response can carry.

use crate::decimal::{decimal, push_decimal};
use crate::text::{chars_of, string_of};
use vstd::prelude::*;

verus! {

/// A standard HTTP status code.
#[derive(Eq, PartialEq, Clone, Copy, Debug, Structural)]
pub enum StatusCode {
    OK,
    Created,
    Accepted,
    NonAuthoritativeInformation,
    NoContent,
    ResetContent,
    PartialContent,
    MultipleChoices,
    MovedPermanently,
    Found,
    SeeOther,
    NotModified,
    UseProxy,
    TemporaryRedirect,
    PermanentRedirect,
    BadRequest,
    UnAuthorized,
    PaymentRequired,
    Forbidden,
    NotFound,
    MethodNotAllowed,
    NotAcceptable,
    ProxyAuthenticationRequired,
    RequestTimeout,
    Conflict,
    Gone,
    LengthRequired,
    PreconditionFailed,
    PayloadTooLarge,
    UriTooLong,
    UnsupportedMediaType,
    RangeNotSatisfiable,
    ExpectationFailed,
    ImATeapot,
    UnprocessableEntity,
    TooManyRequests,
    InternalServerError,
    NotImplemented,
    BadGateway,
    ServiceUnavailable,
    GatewayTimeout,
    HttpVersionNotSupported,
    InsufficientStorage,
    LoopDetected,
}

impl StatusCode {
    /// The three-digit number of the status.
    pub open spec fn number(self) -> nat {
        match self {
            StatusCode::OK => 200,
            StatusCode::Created => 201,
            StatusCode::Accepted => 202,
            StatusCode::NonAuthoritativeInformation => 203,
            StatusCode::NoContent => 204,
            StatusCode::ResetContent => 205,
            StatusCode::PartialContent => 206,
            StatusCode::MultipleChoices => 300,
            StatusCode::MovedPermanently => 301,
            StatusCode::Found => 302,
            StatusCode::SeeOther => 303,
            StatusCode::NotModified => 304,
            StatusCode::UseProxy => 305,
            StatusCode::TemporaryRedirect => 307,
            StatusCode::PermanentRedirect => 308,
            StatusCode::BadRequest => 400,
            StatusCode::UnAuthorized => 401,
            StatusCode::PaymentRequired => 402,
            StatusCode::Forbidden => 403,
            StatusCode::NotFound => 404,
            StatusCode::MethodNotAllowed => 405,
            StatusCode::NotAcceptable => 406,
            StatusCode::ProxyAuthenticationRequired => 407,
            StatusCode::RequestTimeout => 408,
            StatusCode::Conflict => 409,
            StatusCode::Gone => 410,
            StatusCode::LengthRequired => 411,
            StatusCode::PreconditionFailed => 412,
            StatusCode::PayloadTooLarge => 413,
            StatusCode::UriTooLong => 414,
            StatusCode::UnsupportedMediaType => 415,
            StatusCode::RangeNotSatisfiable => 416,
            StatusCode::ExpectationFailed => 417,
            StatusCode::ImATeapot => 418,
            StatusCode::UnprocessableEntity => 422,
            StatusCode::TooManyRequests => 429,
            StatusCode::InternalServerError => 500,
            StatusCode::NotImplemented => 501,
            StatusCode::BadGateway => 502,
            StatusCode::ServiceUnavailable => 503,
            StatusCode::GatewayTimeout => 504,
            StatusCode::HttpVersionNotSupported => 505,
            StatusCode::InsufficientStorage => 507,
            StatusCode::LoopDetected => 508,
        }
    }

    /// The reason phrase that follows the number on the status line.
    pub open spec fn reason(self) -> Seq<char> {
        match self {
            StatusCode::OK => "OK"@,
            StatusCode::Created => "Created"@,
            StatusCode::Accepted => "Accepted"@,
            StatusCode::NonAuthoritativeInformation => "Non-Authoritative Information"@,
            StatusCode::NoContent => "No Content"@,
            StatusCode::ResetContent => "Reset Content"@,
            StatusCode::PartialContent => "Partial Content"@,
            StatusCode::MultipleChoices => "Multiple Choices"@,
            StatusCode::MovedPermanently => "Moved Permanently"@,
            StatusCode::Found => "Found"@,
            StatusCode::SeeOther => "See Other"@,
            StatusCode::NotModified => "Not Modified"@,
            StatusCode::UseProxy => "Use Proxy"@,
            StatusCode::TemporaryRedirect => "Temporary Redirect"@,
            StatusCode::PermanentRedirect => "Permanent Redirect"@,
            StatusCode::BadRequest => "Bad Request"@,
            StatusCode::UnAuthorized => "Unauthorized"@,
            StatusCode::PaymentRequired => "Payment Required"@,
            StatusCode::Forbidden => "Forbidden"@,
            StatusCode::NotFound => "Not Found"@,
            StatusCode::MethodNotAllowed => "Method Not Allowed"@,
            StatusCode::NotAcceptable => "Not Acceptable"@,
            StatusCode::ProxyAuthenticationRequired => "Proxy Authentication Required"@,
            StatusCode::RequestTimeout => "Request Timeout"@,
            StatusCode::Conflict => "Conflict"@,
            StatusCode::Gone => "Gone"@,
            StatusCode::LengthRequired => "Length Required"@,
            StatusCode::PreconditionFailed => "Precondition Failed"@,
            StatusCode::PayloadTooLarge => "Payload Too Large"@,
            StatusCode::UriTooLong => "URI Too Long"@,
            StatusCode::UnsupportedMediaType => "Unsupported Media Type"@,
            StatusCode::RangeNotSatisfiable => "Range Not Satisfiable"@,
            StatusCode::ExpectationFailed => "Expectation Failed"@,
            StatusCode::ImATeapot => "I'm a teapot"@,
            StatusCode::UnprocessableEntity => "Unprocessable Entity"@,
            StatusCode::TooManyRequests => "Too Many Requests"@,
            StatusCode::InternalServerError => "Internal Server Error"@,
            StatusCode::NotImplemented => "Not Implemented"@,
            StatusCode::BadGateway => "Bad Gateway"@,
            StatusCode::ServiceUnavailable => "Service Unavailable"@,
            StatusCode::GatewayTimeout => "Gateway Timeout"@,
            StatusCode::HttpVersionNotSupported => "HTTP Version Not Supported"@,
            StatusCode::InsufficientStorage => "Insufficient Storage"@,
            StatusCode::LoopDetected => "Loop Detected"@,
        }
    }

    /// The status as it stands on the status line: the number, a space, the
    /// reason phrase.
    pub open spec fn text(self) -> Seq<char> {
        decimal(self.number()) + seq![' '] + self.reason()
    }

    /// The three-digit number of the status.
    pub fn code(&self) -> (code: u16)
        ensures
            code == self.number(),
            100 <= code < 600,
    {
        match self {
            StatusCode::OK => 200,
            StatusCode::Created => 201,
            StatusCode::Accepted => 202,
            StatusCode::NonAuthoritativeInformation => 203,
            StatusCode::NoContent => 204,
            StatusCode::ResetContent => 205,
            StatusCode::PartialContent => 206,
            StatusCode::MultipleChoices => 300,
            StatusCode::MovedPermanently => 301,
            StatusCode::Found => 302,
            StatusCode::SeeOther => 303,
            StatusCode::NotModified => 304,
            StatusCode::UseProxy => 305,
            StatusCode::TemporaryRedirect => 307,
            StatusCode::PermanentRedirect => 308,
            StatusCode::BadRequest => 400,
            StatusCode::UnAuthorized => 401,
            StatusCode::PaymentRequired => 402,
            StatusCode::Forbidden => 403,
            StatusCode::NotFound => 404,
            StatusCode::MethodNotAllowed => 405,
            StatusCode::NotAcceptable => 406,
            StatusCode::ProxyAuthenticationRequired => 407,
            StatusCode::RequestTimeout => 408,
            StatusCode::Conflict => 409,
            StatusCode::Gone => 410,
            StatusCode::LengthRequired => 411,
            StatusCode::PreconditionFailed => 412,
            StatusCode::PayloadTooLarge => 413,
            StatusCode::UriTooLong => 414,
            StatusCode::UnsupportedMediaType => 415,
            StatusCode::RangeNotSatisfiable => 416,
            StatusCode::ExpectationFailed => 417,
            StatusCode::ImATeapot => 418,
            StatusCode::UnprocessableEntity => 422,
            StatusCode::TooManyRequests => 429,
            StatusCode::InternalServerError => 500,
            StatusCode::NotImplemented => 501,
            StatusCode::BadGateway => 502,
            StatusCode::ServiceUnavailable => 503,
            StatusCode::GatewayTimeout => 504,
            StatusCode::HttpVersionNotSupported => 505,
            StatusCode::InsufficientStorage => 507,
            StatusCode::LoopDetected => 508,
        }
    }

    /// The reason phrase of the status.
    pub fn reason_phrase(&self) -> (phrase: &'static str)
        ensures
            phrase@ == self.reason(),
    {
        match self {
            StatusCode::OK => "OK",
            StatusCode::Created => "Created",
            StatusCode::Accepted => "Accepted",
            StatusCode::NonAuthoritativeInformation => "Non-Authoritative Information",
            StatusCode::NoContent => "No Content",
            StatusCode::ResetContent => "Reset Content",
            StatusCode::PartialContent => "Partial Content",
            StatusCode::MultipleChoices => "Multiple Choices",
            StatusCode::MovedPermanently => "Moved Permanently",
            StatusCode::Found => "Found",
            StatusCode::SeeOther => "See Other",
            StatusCode::NotModified => "Not Modified",
            StatusCode::UseProxy => "Use Proxy",
            StatusCode::TemporaryRedirect => "Temporary Redirect",
            StatusCode::PermanentRedirect => "Permanent Redirect",
            StatusCode::BadRequest => "Bad Request",
            StatusCode::UnAuthorized => "Unauthorized",
            StatusCode::PaymentRequired => "Payment Required",
            StatusCode::Forbidden => "Forbidden",
            StatusCode::NotFound => "Not Found",
            StatusCode::MethodNotAllowed => "Method Not Allowed",
            StatusCode::NotAcceptable => "Not Acceptable",
            StatusCode::ProxyAuthenticationRequired => "Proxy Authentication Required",
            StatusCode::RequestTimeout => "Request Timeout",
            StatusCode::Conflict => "Conflict",
            StatusCode::Gone => "Gone",
            StatusCode::LengthRequired => "Length Required",
            StatusCode::PreconditionFailed => "Precondition Failed",
            StatusCode::PayloadTooLarge => "Payload Too Large",
            StatusCode::UriTooLong => "URI Too Long",
            StatusCode::UnsupportedMediaType => "Unsupported Media Type",
            StatusCode::RangeNotSatisfiable => "Range Not Satisfiable",
            StatusCode::ExpectationFailed => "Expectation Failed",
            StatusCode::ImATeapot => "I'm a teapot",
            StatusCode::UnprocessableEntity => "Unprocessable Entity",
            StatusCode::TooManyRequests => "Too Many Requests",
            StatusCode::InternalServerError => "Internal Server Error",
            StatusCode::NotImplemented => "Not Implemented",
            StatusCode::BadGateway => "Bad Gateway",
            StatusCode::ServiceUnavailable => "Service Unavailable",
            StatusCode::GatewayTimeout => "Gateway Timeout",
            StatusCode::HttpVersionNotSupported => "HTTP Version Not Supported",
            StatusCode::InsufficientStorage => "Insufficient Storage",
            StatusCode::LoopDetected => "Loop Detected",
        }
    }

    /// Appends the status, as it stands on the status line, to `out`.
    pub fn write_to(&self, out: &mut Vec<char>)
        ensures
            final(out)@ == old(out)@ + self.text(),
    {
        let ghost before = out@;
        push_decimal(out, self.code() as u64);
        out.push(' ');
        let mut phrase = chars_of(self.reason_phrase());
        out.append(&mut phrase);
        proof {
            assert(out@ =~= before + self.text());
        }
    }

    /// The status as it stands on the status line, such as `404 Not Found`.
    pub fn to_string(&self) -> (line: String)
        ensures
            line@ == self.text(),
    {
        let mut out: Vec<char> = Vec::new();
        self.write_to(&mut out);
        string_of(out.as_slice())
    }
}

} // verus!
