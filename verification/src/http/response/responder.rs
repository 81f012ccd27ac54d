//! What a handler may return: anything that knows how to become a response.

use crate::decimal::{format_i32, signed_decimal};
use crate::http::response::{Response, ResponseBuilder, ResponseParts};
use crate::http::status::StatusCode;
use vstd::prelude::*;

verus! {

/// The JSON text that `serde_json::to_string` makes of the string `text`.
pub uninterp spec fn json_string(text: Seq<char>) -> Seq<char>;

/// `serde_json::to_string` on a string slice: the JSON string literal of
/// `text`. Serialising a string slice into memory has no failing path, so
/// the empty fallback is never taken.
#[verifier::external_body]
fn encode_str(text: &str) -> (json: String)
    ensures
        json@ == json_string(text@),
{
    match serde_json::to_string(text) {
        Ok(json) => json,
        Err(_) => String::new(),
    }
}

/// A value that a handler returns.
pub trait Responder {
    /// The response that stands for the value.
    fn into_response(self) -> Response;
}

impl Responder for Response {
    /// A response stands for itself.
    fn into_response(self) -> (out: Response)
        ensures
            out == self,
    {
        self
    }
}

impl Responder for String {
    /// Success, with the string as a JSON string for a body.
    fn into_response(self) -> (out: Response)
        ensures
            out@ == ResponseParts::plain(StatusCode::OK, json_string(self@)),
    {
        text_response(StatusCode::OK, self.as_str())
    }
}

impl Responder for i32 {
    /// Success, with the number as a JSON number for a body.
    fn into_response(self) -> (out: Response)
        ensures
            out@ == ResponseParts::plain(StatusCode::OK, signed_decimal(self as int)),
    {
        ResponseBuilder::new(StatusCode::OK, format_i32(self)).build()
    }
}

impl Responder for &str {
    /// Success, with the string as a JSON string for a body.
    fn into_response(self) -> (out: Response)
        ensures
            out@ == ResponseParts::plain(StatusCode::OK, json_string(self@)),
    {
        text_response(StatusCode::OK, self)
    }
}

/// The response with status `status` whose body is the JSON string of
/// `text`.
pub fn text_response(status: StatusCode, text: &str) -> (out: Response)
    ensures
        out@ == ResponseParts::plain(status, json_string(text@)),
{
    ResponseBuilder::new(status, encode_str(text)).build()
}

/// The answer to a request that no route matches: status 404, the empty
/// string for a body.
pub fn not_found() -> (out: Response)
    ensures
        out@ == ResponseParts::plain(StatusCode::NotFound, json_string(""@)),
{
    text_response(StatusCode::NotFound, "")
}

/// The answer to a request whose body does not decode into what the handler
/// takes: status 400, the empty string for a body.
pub fn bad_request() -> (out: Response)
    ensures
        out@ == ResponseParts::plain(StatusCode::BadRequest, json_string(""@)),
{
    text_response(StatusCode::BadRequest, "")
}

} // verus!
