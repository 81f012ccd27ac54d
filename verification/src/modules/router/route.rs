//! One route: a method, a path, and the handler that answers them.

use crate::http::method::Method;
use vstd::prelude::*;
use vstd::string::StringExecFns;

verus! {

/// A binding of a method and a path to a handler of type `H`. The library
/// never looks into a handler; whoever runs the server calls it.
pub struct Route<H> {
    method: Method,
    path: String,
    fabric: H,
}

impl<H> Route<H> {
    /// The method that the route answers.
    pub closed spec fn method(&self) -> Method {
        self.method
    }

    /// The path that the route answers.
    pub closed spec fn path(&self) -> Seq<char> {
        self.path@
    }

    /// The handler of the route.
    pub closed spec fn handler(&self) -> H {
        self.fabric
    }

    /// The key under which a router files the route.
    pub open spec fn key(&self) -> (Method, Seq<char>) {
        (self.method(), self.path())
    }

    /// A route that answers `method` on `path` with `fabric`.
    pub fn new(method: Method, path: &str, fabric: H) -> (out: Self)
        ensures
            out.method() == method,
            out.path() == path@,
            out.handler() == fabric,
    {
        Self { method, path: String::from_str(path), fabric }
    }

    /// The method and the path of the route.
    pub fn get(&self) -> (key: (Method, String))
        ensures
            key.0 == self.method(),
            key.1@ == self.path(),
    {
        (self.method, self.path.clone())
    }

    /// The handler of the route.
    pub fn fabric(&self) -> (fabric: &H)
        ensures
            *fabric == self.handler(),
    {
        &self.fabric
    }
}

} // verus!
