//! The server as it is set up before it runs: where it listens, what it
//! routes, what state and which sessions it keeps.

pub mod stream_handler;

use crate::modules::router::route::Route;
use crate::modules::router::{inserted, RouteKey, Router};
use crate::modules::session::{Session, SessionType};
use crate::modules::state::StateStore;
use vstd::prelude::*;
use vstd::string::StringExecFns;

verus! {

/// What a server was set up with.
pub struct Setup<H, V, S> {
    /// Where a development build listens.
    pub address_dev: Option<(Seq<char>, u16)>,
    /// Where a release build listens.
    pub address_release: Option<(Seq<char>, u16)>,
    pub routes: Map<RouteKey, Route<H>>,
    /// The state slots, by name.
    pub states: Map<Seq<char>, S>,
    /// The bags of the sessions by identifier, when the server keeps
    /// sessions.
    pub sessions: Option<Map<Seq<char>, Map<Seq<char>, V>>>,
    /// The files of the certificate chain and of the private key.
    pub tls_certs: Option<(Seq<char>, Seq<char>)>,
}

impl<H, V, S> Setup<H, V, S> {
    /// Where a build listens: a release build at the release address when
    /// there is one, every other build at the development address.
    pub open spec fn address(self, release_build: bool) -> Option<(Seq<char>, u16)> {
        if release_build && self.address_release is Some {
            self.address_release
        } else {
            self.address_dev
        }
    }
}

/// The text and number of an address, if there is one.
pub open spec fn address_of(address: Option<(String, u16)>) -> Option<(Seq<char>, u16)> {
    match address {
        Some(a) => Some((a.0@, a.1)),
        None => None,
    }
}

/// A server that is being set up. `H` is the type of the handlers, `V` that
/// of the values that sessions hold, `S` that of the state slots.
#[verifier::reject_recursive_types(H)]
#[verifier::reject_recursive_types(V)]
#[verifier::reject_recursive_types(S)]
pub struct NuttServer<H, V, S> {
    address_dev: Option<(String, u16)>,
    address_release: Option<(String, u16)>,
    router: Router<H>,
    states: StateStore<S>,
    session: Option<Session<V>>,
    tls_certs: Option<(String, String)>,
}

impl<H, V, S> View for NuttServer<H, V, S> {
    type V = Setup<H, V, S>;

    closed spec fn view(&self) -> Setup<H, V, S> {
        Setup {
            address_dev: address_of(self.address_dev),
            address_release: address_of(self.address_release),
            routes: self.router@,
            states: self.states@,
            sessions: match self.session {
                Some(session) => Some(session@),
                None => None,
            },
            tls_certs: match self.tls_certs {
                Some(files) => Some((files.0@, files.1@)),
                None => None,
            },
        }
    }
}

impl<H, V, S> NuttServer<H, V, S> {
    /// A server without address, routes, state, sessions or certificates.
    pub fn new() -> (out: Self)
        ensures
            out@ == (Setup::<H, V, S> {
                address_dev: None,
                address_release: None,
                routes: Map::empty(),
                states: Map::empty(),
                sessions: None,
                tls_certs: None,
            }),
    {
        Self {
            address_dev: None,
            address_release: None,
            router: Router::new(),
            states: StateStore::new(),
            session: None,
            tls_certs: None,
        }
    }

    /// Files each of `routes`, in order, under its own method and path. A
    /// later route replaces an earlier one with the same method and path.
    pub fn routes(self, routes: Vec<Route<H>>) -> (out: Self)
        ensures
            out@ == (Setup {
                routes: inserted(self@.routes, routes@.map_values(|r: Route<H>| (r.key(), r))),
                ..self@
            }),
    {
        let mut router = self.router;
        router.extend(routes);
        Self {
            address_dev: self.address_dev,
            address_release: self.address_release,
            router,
            states: self.states,
            session: self.session,
            tls_certs: self.tls_certs,
        }
    }

    /// Sets the address at which a development build listens.
    pub fn bind_dev(self, address: (&str, u16)) -> (out: Self)
        ensures
            out@ == (Setup { address_dev: Some((address.0@, address.1)), ..self@ }),
    {
        Self {
            address_dev: Some((String::from_str(address.0), address.1)),
            address_release: self.address_release,
            router: self.router,
            states: self.states,
            session: self.session,
            tls_certs: self.tls_certs,
        }
    }

    /// Sets the address at which a release build listens.
    pub fn bind_release(self, address: (&str, u16)) -> (out: Self)
        ensures
            out@ == (Setup { address_release: Some((address.0@, address.1)), ..self@ }),
    {
        Self {
            address_dev: self.address_dev,
            address_release: Some((String::from_str(address.0), address.1)),
            router: self.router,
            states: self.states,
            session: self.session,
            tls_certs: self.tls_certs,
        }
    }

    /// Files the state slot `state.1` under the name `state.0`. A slot that
    /// was filed under that name before is replaced.
    pub fn state(self, state: (String, S)) -> (out: Self)
        ensures
            out@ == (Setup { states: self@.states.insert(state.0@, state.1), ..self@ }),
    {
        let mut states = self.states;
        states.insert(state.0, state.1);
        Self {
            address_dev: self.address_dev,
            address_release: self.address_release,
            router: self.router,
            states,
            session: self.session,
            tls_certs: self.tls_certs,
        }
    }

    /// Gives the server an empty session store of the kind `session_type`.
    /// A store that it had is dropped.
    pub fn session(self, session_type: SessionType) -> (out: Self)
        ensures
            out@ == (Setup { sessions: Some(Map::empty()), ..self@ }),
    {
        Self {
            address_dev: self.address_dev,
            address_release: self.address_release,
            router: self.router,
            states: self.states,
            session: Some(Session::new(session_type)),
            tls_certs: self.tls_certs,
        }
    }

    /// Sets the files of the certificate chain and of the private key.
    /// `None` leaves the server as it is.
    pub fn set_tls_certs(self, certs: Option<(&str, &str)>) -> (out: Self)
        ensures
            out@ == match certs {
                Some(files) => Setup { tls_certs: Some((files.0@, files.1@)), ..self@ },
                None => self@,
            },
    {
        match certs {
            Some(files) => Self {
                address_dev: self.address_dev,
                address_release: self.address_release,
                router: self.router,
                states: self.states,
                session: self.session,
                tls_certs: Some((String::from_str(files.0), String::from_str(files.1))),
            },
            None => self,
        }
    }

    /// The address at which the server listens, if it was given one.
    /// `release_build` says whether the program was built for release.
    pub fn address(&self, release_build: bool) -> (address: Option<(&str, u16)>)
        ensures
            match address {
                Some(a) => self@.address(release_build) == Some((a.0@, a.1)),
                None => self@.address(release_build) is None,
            },
    {
        let chosen = if release_build && self.address_release.is_some() {
            &self.address_release
        } else {
            &self.address_dev
        };
        match chosen {
            Some(a) => Some((a.0.as_str(), a.1)),
            None => None,
        }
    }

    /// The files of the certificate chain and of the private key, if they
    /// were set.
    pub fn tls_certs(&self) -> (certs: Option<(&str, &str)>)
        ensures
            match certs {
                Some(files) => self@.tls_certs == Some((files.0@, files.1@)),
                None => self@.tls_certs is None,
            },
    {
        match &self.tls_certs {
            Some(files) => Some((files.0.as_str(), files.1.as_str())),
            None => None,
        }
    }

    /// The routing table, the state slots and the session store, for the
    /// program that runs the server.
    pub fn into_parts(self) -> (parts: (Router<H>, StateStore<S>, Option<Session<V>>))
        ensures
            parts.0@ == self@.routes,
            parts.1@ == self@.states,
            match parts.2 {
                Some(session) => self@.sessions == Some(session@),
                None => self@.sessions is None,
            },
    {
        (self.router, self.states, self.session)
    }
}

} // verus!
