//! What a connection does once the raw text of its request is complete.

use crate::http::method::Method;
use crate::http::request::{parse_request, parsed, ParseError, Request, RequestParts};
use crate::http::response::responder::{json_string, not_found};
use crate::http::response::{Response, ResponseParts};
use crate::http::status::StatusCode;
use crate::modules::router::route::Route;
use crate::modules::router::Router;
use crate::modules::session::Session;
use crate::modules::state::{share, State, StateStore};
use std::sync::Arc;
use vstd::prelude::*;
use vstd::string::StringExecFns;

verus! {

/// Reads requests off the raw text of a connection.
pub struct StreamHandler;

impl StreamHandler {
    /// Parses the raw text `raw` and returns the request with its method and
    /// path, by which it is routed.
    pub fn handle_stream(raw: &str) -> (out: Result<(Method, String, Request), ParseError>)
        ensures
            match out {
                Ok((method, path, request)) => parsed(raw@) == Ok::<RequestParts, ParseError>(
                    request@,
                ) && method == request@.method && path@ == request@.path,
                Err(e) => parsed(raw@) == Err::<RequestParts, ParseError>(e),
            },
    {
        match parse_request(raw) {
            Ok(request) => {
                let method = request.get_method();
                let path = String::from_str(request.get_path());
                Ok((method, path, request))
            },
            Err(e) => Err(e),
        }
    }
}

/// A request together with the handles of the server that answers it: what
/// a handler is given.
#[verifier::reject_recursive_types(S)]
#[verifier::reject_recursive_types(V)]
pub struct Context<S, V> {
    request: Request,
    states: Arc<StateStore<S>>,
    session: Option<State<Session<V>>>,
}

impl<S, V> Context<S, V> {
    /// The request.
    pub closed spec fn request(&self) -> Request {
        self.request
    }

    /// The state slots of the server.
    pub closed spec fn states(&self) -> Arc<StateStore<S>> {
        self.states
    }

    /// The session store of the server, when it keeps sessions.
    pub closed spec fn session(&self) -> Option<State<Session<V>>> {
        self.session
    }

    /// Attaches the handles `states` and `session` to `request`.
    pub fn new(
        request: Request,
        states: Arc<StateStore<S>>,
        session: Option<State<Session<V>>>,
    ) -> (out: Self)
        ensures
            out.request() == request,
            out.states() == states,
            out.session() == session,
    {
        Self { request, states, session }
    }

    /// The request.
    pub fn get_request(&self) -> (request: &Request)
        ensures
            *request == self.request(),
    {
        &self.request
    }

    /// The state slots of the server.
    pub fn get_state(&self) -> (states: &StateStore<S>)
        ensures
            *states == *self.states(),
    {
        &*self.states
    }

    /// A handle to the session store of the server, when it keeps sessions.
    pub fn get_session(&self) -> (session: Option<State<Session<V>>>)
        ensures
            session == self.session(),
    {
        match &self.session {
            Some(handle) => Some(handle.clone()),
            None => None,
        }
    }
}

/// What becomes of one connection.
#[verifier::reject_recursive_types(S)]
#[verifier::reject_recursive_types(V)]
pub enum Dispatch<'a, H, S, V> {
    /// The request was not understood: close the connection and write
    /// nothing.
    Close(ParseError),
    /// No route answers the request: write this response, then close.
    Respond(Response),
    /// Run the handler of this route on the request with its handles, write
    /// what it returns, then close.
    Invoke(&'a Route<H>, Context<S, V>),
}

/// Decides what becomes of the connection whose request has the raw text
/// `raw`: the request is parsed and looked up in `router` under its method
/// and its exact path. A request that a route answers is given the handles
/// `states` and `session`.
pub fn dispatch<'a, H, S, V>(
    router: &'a Router<H>,
    states: &Arc<StateStore<S>>,
    session: &Option<State<Session<V>>>,
    raw: &str,
) -> (out: Dispatch<'a, H, S, V>)
    ensures
        match parsed(raw@) {
            Err(e) => out matches Dispatch::Close(reason) && reason == e,
            Ok(parts) => if router@.contains_key((parts.method, parts.path)) {
                out matches Dispatch::Invoke(route, context) && *route == router@[(
                    parts.method,
                    parts.path,
                )] && context.request()@ == parts && context.states() == *states
                    && context.session() == *session
            } else {
                out matches Dispatch::Respond(response) && response@ == ResponseParts::plain(
                    StatusCode::NotFound,
                    json_string(""@),
                )
            },
        },
{
    match StreamHandler::handle_stream(raw) {
        Err(e) => Dispatch::Close(e),
        Ok((method, path, request)) => match router.get((method, path)) {
            Some(route) => {
                let session = match session {
                    Some(handle) => Some(handle.clone()),
                    None => None,
                };
                Dispatch::Invoke(route, Context::new(request, share(states), session))
            },
            None => Dispatch::Respond(not_found()),
        },
    }
}

} // verus!
