//! Sessions: state that the server keeps for a client between requests.

pub mod cookie_session;

use crate::modules::session::cookie_session::CookieSession;
use vstd::prelude::*;

verus! {

/// The session store of a server, by the way sessions are told apart.
#[verifier::reject_recursive_types(V)]
pub enum Session<V> {
    /// Sessions that a cookie names.
    Cookie(CookieSession<V>),
}

/// The ways in which a server can tell sessions apart.
#[derive(Debug, Clone, Copy, PartialEq, Eq, Structural)]
pub enum SessionType {
    /// By a cookie that holds the session's identifier.
    Cookie,
}

impl<V> View for Session<V> {
    type V = Map<Seq<char>, Map<Seq<char>, V>>;

    /// The bags of the sessions, by identifier.
    open spec fn view(&self) -> Map<Seq<char>, Map<Seq<char>, V>> {
        match self {
            Session::Cookie(store) => store@,
        }
    }
}

impl<V> Session<V> {
    /// An empty session store of the kind `session_type`.
    pub fn new(session_type: SessionType) -> (out: Self)
        ensures
            out is Cookie,
            out@ == Map::<Seq<char>, Map<Seq<char>, V>>::empty(),
    {
        match session_type {
            SessionType::Cookie => Session::Cookie(CookieSession::new()),
        }
    }
}

} // verus!
