//! Handler parameters: what kind each is, by its declared type, and what
//! becomes of a request when one cannot be supplied.

use crate::http::response::responder::{bad_request, json_string};
use crate::http::response::{Response, ResponseParts};
use crate::http::status::StatusCode;
use crate::text::{chars_of, find_in, first_in, same_chars, trim, trimmed, CharClass};
use vstd::prelude::*;
use vstd::slice::slice_subrange;

verus! {

/// Where the value of a handler parameter comes from.
#[derive(Debug, Clone, Copy, PartialEq, Eq, Structural)]
pub enum ArgKind {
    /// Decoded from the body of the request.
    Body,
    /// The shared state slot that bears the parameter's name.
    State,
    /// The session store or the cookie jar of the request, handed over as
    /// they are.
    Session,
}

/// The first segment of the declared type `declared`: what stands before
/// the first `<` or `:`, trimmed.
pub open spec fn head(declared: Seq<char>) -> Seq<char> {
    let angle = first_in(declared, CharClass::Exactly('<'), 0);
    let colon = first_in(declared, CharClass::Exactly(':'), 0);
    trim(
        declared.take(
            if angle <= colon {
                angle
            } else {
                colon
            },
        ),
    )
}

/// The kind of a parameter whose declared type is `declared`: `State` is
/// shared state, `CookieSession` and `CookieJar` come with the request, and
/// everything else is decoded from the body.
pub open spec fn kind_of(declared: Seq<char>) -> ArgKind {
    if head(declared) == "State"@ {
        ArgKind::State
    } else if head(declared) == "CookieSession"@ || head(declared) == "CookieJar"@ {
        ArgKind::Session
    } else {
        ArgKind::Body
    }
}

/// Classifies a handler parameter by its declared type, as it is written.
pub fn classify(declared: &str) -> (kind: ArgKind)
    ensures
        kind == kind_of(declared@),
{
    let chars = chars_of(declared);
    let angle = find_in(chars.as_slice(), CharClass::Exactly('<'), 0);
    let colon = find_in(chars.as_slice(), CharClass::Exactly(':'), 0);
    let end = if angle <= colon {
        angle
    } else {
        colon
    };
    let first = trimmed(slice_subrange(chars.as_slice(), 0, end));
    if same_chars(first, chars_of("State").as_slice()) {
        ArgKind::State
    } else if same_chars(first, chars_of("CookieSession").as_slice()) || same_chars(
        first,
        chars_of("CookieJar").as_slice(),
    ) {
        ArgKind::Session
    } else {
        ArgKind::Body
    }
}

/// What becomes of a request one of whose parameters cannot be supplied.
pub enum Unresolved {
    /// The handler is not called; this response is written instead.
    Refuse(Response),
    /// The server is set up wrongly: a state slot is missing or holds
    /// another type. No response can stand for that.
    Misconfigured,
}

/// What becomes of a request when a parameter of the kind `kind` cannot be
/// supplied: a body that does not decode is the client's fault and is
/// answered with status 400; a missing state slot is the server's. The
/// session and the cookie jar can always be supplied.
pub fn unresolved(kind: ArgKind) -> (out: Option<Unresolved>)
    ensures
        match kind {
            ArgKind::Body => out matches Some(Unresolved::Refuse(response)) && response@
                == ResponseParts::plain(StatusCode::BadRequest, json_string(""@)),
            ArgKind::State => out matches Some(Unresolved::Misconfigured),
            ArgKind::Session => out is None,
        },
{
    match kind {
        ArgKind::Body => Some(Unresolved::Refuse(bad_request())),
        ArgKind::State => Some(Unresolved::Misconfigured),
        ArgKind::Session => None,
    }
}

} // verus!
