//! The request methods that the server routes.

use crate::text::{chars_of, same_chars};
use vstd::prelude::*;
use vstd::string::StringExecFns;

verus! {

/// A request method.
#[derive(Hash, Eq, PartialEq, Clone, Copy, Debug, Structural)]
pub enum Method {
    GET,
    POST,
    PUT,
    DELETE,
}

impl Method {
    /// The token that names the method on the request line.
    pub open spec fn name(self) -> Seq<char> {
        match self {
            Method::GET => "GET"@,
            Method::POST => "POST"@,
            Method::PUT => "PUT"@,
            Method::DELETE => "DELETE"@,
        }
    }

    /// The method that the token `token` names, if it names one. Tokens are
    /// compared character for character: `get` names no method.
    pub open spec fn named(token: Seq<char>) -> Option<Method> {
        if token == "GET"@ {
            Some(Method::GET)
        } else if token == "POST"@ {
            Some(Method::POST)
        } else if token == "PUT"@ {
            Some(Method::PUT)
        } else if token == "DELETE"@ {
            Some(Method::DELETE)
        } else {
            None
        }
    }

    /// The token that names the method.
    pub fn as_str(&self) -> (name: &'static str)
        ensures
            name@ == self.name(),
    {
        match self {
            Method::GET => "GET",
            Method::POST => "POST",
            Method::PUT => "PUT",
            Method::DELETE => "DELETE",
        }
    }

    /// The token that names the method, as an owned string.
    pub fn to_string(&self) -> (name: String)
        ensures
            name@ == self.name(),
    {
        String::from_str(self.as_str())
    }

    /// Reads a method from the first token of a request line.
    pub fn from_token(token: &[char]) -> (method: Option<Method>)
        ensures
            method == Method::named(token@),
    {
        if same_chars(token, chars_of("GET").as_slice()) {
            Some(Method::GET)
        } else if same_chars(token, chars_of("POST").as_slice()) {
            Some(Method::POST)
        } else if same_chars(token, chars_of("PUT").as_slice()) {
            Some(Method::PUT)
        } else if same_chars(token, chars_of("DELETE").as_slice()) {
            Some(Method::DELETE)
        } else {
            None
        }
    }
}

/// Each method is named by a token, and that token names it.
pub proof fn lemma_method_name_roundtrip(method: Method)
    ensures
        Method::named(method.name()) == Some(method),
{
    reveal_strlit("GET");
    reveal_strlit("POST");
    reveal_strlit("PUT");
    reveal_strlit("DELETE");
    assert("GET"@.len() == 3);
    assert("POST"@.len() == 4);
    assert("PUT"@[0] == 'P' && "GET"@[0] == 'G');
    assert("PUT"@.len() == 3);
    assert("DELETE"@.len() == 6);
}

} // verus!
