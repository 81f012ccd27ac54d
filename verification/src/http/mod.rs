//! The HTTP vocabulary of the server: methods, status codes, cookies,
//! requests and responses.

pub mod cookie;
pub mod method;
pub mod request;
pub mod response;
pub mod status;

use vstd::prelude::*;

verus! {

/// The body of a request or of a response, as text. A response body is JSON
/// text; a request body is what the client sent.
#[derive(Debug)]
pub struct HttpBody {
    body: String,
}

impl View for HttpBody {
    type V = Seq<char>;

    closed spec fn view(&self) -> Seq<char> {
        self.body@
    }
}

impl Clone for HttpBody {
    fn clone(&self) -> (out: Self)
        ensures
            out == *self,
    {
        HttpBody { body: self.body.clone() }
    }
}

impl HttpBody {
    /// A body that holds `text`.
    pub fn new(text: String) -> (out: HttpBody)
        ensures
            out@ == text@,
    {
        Self { body: text }
    }

    /// The text of the body.
    pub fn as_str(&self) -> (text: &str)
        ensures
            text@ == self@,
    {
        self.body.as_str()
    }
}

} // verus!
