//! Responses, and the serialiser that puts one on the wire.

pub mod responder;

use crate::decimal::{decimal, push_decimal};
use crate::http::status::StatusCode;
use crate::http::HttpBody;
use crate::text::{push_str, string_of};
use vstd::prelude::*;
use vstd::string::StringExecFns;

verus! {

/// The headers of a response.
pub struct HeaderFields {
    pub content_type: Seq<char>,
    /// The number of bytes of the body.
    pub content_length: nat,
    pub connection: Seq<char>,
    /// The value of the `Set-Cookie` header, when a cookie is set.
    pub set_cookie: Option<Seq<char>>,
}

impl HeaderFields {
    /// The headers of every response whose body is `content_length` bytes
    /// long: JSON content, that length, and `keep-alive`.
    pub open spec fn base(content_length: nat) -> HeaderFields {
        HeaderFields {
            content_type: "application/json"@,
            content_length,
            connection: "keep-alive"@,
            set_cookie: None,
        }
    }

    /// The header lines, each closed by a line end, in the order in which
    /// they go on the wire.
    pub open spec fn text(self) -> Seq<char> {
        "Content-Type: "@ + self.content_type + "\r\n"@ + "Content-Length: "@ + decimal(
            self.content_length,
        ) + "\r\n"@ + "Connection: "@ + self.connection + "\r\n"@ + match self.set_cookie {
            Some(cookie) => "Set-Cookie: "@ + cookie + "\r\n"@,
            None => Seq::empty(),
        }
    }
}

/// The number of bytes that `text` takes in UTF-8.
pub open spec fn byte_len(text: Seq<char>) -> nat {
    vstd::utf8::encode_utf8(text).len()
}

/// The headers of a response.
#[derive(Debug)]
pub struct HttpHeader {
    content_type: String,
    content_length: usize,
    connection: String,
    set_cookie: Option<String>,
}

impl View for HttpHeader {
    type V = HeaderFields;

    closed spec fn view(&self) -> HeaderFields {
        HeaderFields {
            content_type: self.content_type@,
            content_length: self.content_length as nat,
            connection: self.connection@,
            set_cookie: match self.set_cookie {
                Some(cookie) => Some(cookie@),
                None => None,
            },
        }
    }
}

impl HttpHeader {
    /// The headers for a body whose serialised form is `content`.
    pub fn new(content: &str) -> (out: Self)
        ensures
            out@ == HeaderFields::base(byte_len(content@)),
    {
        Self {
            content_type: String::from_str("application/json"),
            content_length: content.as_bytes().len(),
            connection: String::from_str("keep-alive"),
            set_cookie: None,
        }
    }

    /// Appends the header lines to `out`.
    pub fn write_to(&self, out: &mut Vec<char>)
        ensures
            final(out)@ == old(out)@ + self@.text(),
    {
        let ghost before = out@;
        push_str(out, "Content-Type: ");
        push_str(out, self.content_type.as_str());
        push_str(out, "\r\n");
        push_str(out, "Content-Length: ");
        push_decimal(out, self.content_length as u64);
        push_str(out, "\r\n");
        push_str(out, "Connection: ");
        push_str(out, self.connection.as_str());
        push_str(out, "\r\n");
        match &self.set_cookie {
            Some(cookie) => {
                let ghost mid = out@;
                push_str(out, "Set-Cookie: ");
                push_str(out, cookie.as_str());
                push_str(out, "\r\n");
                proof {
                    assert(out@ =~= mid + ("Set-Cookie: "@ + cookie@ + "\r\n"@));
                    assert(out@ =~= before + self@.text());
                }
            },
            None => {
                proof {
                    assert(out@ =~= before + self@.text());
                }
            },
        }
    }

    /// The header lines, each closed by a line end.
    pub fn to_string(&self) -> (out: String)
        ensures
            out@ == self@.text(),
    {
        let mut out: Vec<char> = Vec::new();
        self.write_to(&mut out);
        string_of(out.as_slice())
    }
}

/// What a response holds.
pub struct ResponseParts {
    pub status: StatusCode,
    pub header: HeaderFields,
    /// The body, as JSON text.
    pub body: Seq<char>,
}

impl ResponseParts {
    /// The response with status `status` and body `body` and no cookie.
    pub open spec fn plain(status: StatusCode, body: Seq<char>) -> ResponseParts {
        ResponseParts { status, header: HeaderFields::base(byte_len(body)), body }
    }

    /// What holds of every response: its headers announce JSON content, a
    /// connection that is kept alive, and the length of its own body in
    /// bytes.
    pub open spec fn consistent(self) -> bool {
        &&& self.header.content_type == "application/json"@
        &&& self.header.connection == "keep-alive"@
        &&& self.header.content_length == byte_len(self.body)
    }

    /// The response on the wire: the status line, the header lines, an empty
    /// line, the body.
    pub open spec fn wire(self) -> Seq<char> {
        "HTTP/1.1 "@ + self.status.text() + "\r\n"@ + self.header.text() + "\r\n"@ + self.body
    }
}

/// A response to one request.
#[derive(Debug)]
pub struct Response {
    header: HttpHeader,
    status: StatusCode,
    body: HttpBody,
}

impl View for Response {
    type V = ResponseParts;

    closed spec fn view(&self) -> ResponseParts {
        ResponseParts { status: self.status, header: self.header@, body: self.body@ }
    }
}

impl Response {
    #[verifier::type_invariant]
    spec fn is_consistent(self) -> bool {
        self@.consistent()
    }

    /// The status of the response.
    pub fn status(&self) -> (status: StatusCode)
        ensures
            status == self@.status,
    {
        self.status
    }

    /// The body of the response, as JSON text. Its length in bytes is the
    /// length that the headers announce.
    pub fn body(&self) -> (body: &str)
        ensures
            body@ == self@.body,
            self@.consistent(),
    {
        proof {
            use_type_invariant(self);
        }
        self.body.as_str()
    }

    /// The response as it goes on the wire.
    pub fn to_string(&self) -> (out: String)
        ensures
            out@ == self@.wire(),
            self@.consistent(),
    {
        proof {
            use_type_invariant(self);
        }
        let mut out: Vec<char> = Vec::new();
        push_str(&mut out, "HTTP/1.1 ");
        self.status.write_to(&mut out);
        push_str(&mut out, "\r\n");
        self.header.write_to(&mut out);
        push_str(&mut out, "\r\n");
        push_str(&mut out, self.body.as_str());
        proof {
            assert(out@ =~= self@.wire());
        }
        string_of(out.as_slice())
    }
}

/// Builds a response.
pub struct ResponseBuilder {
    status: StatusCode,
    header: HttpHeader,
    body: HttpBody,
}

impl View for ResponseBuilder {
    type V = ResponseParts;

    closed spec fn view(&self) -> ResponseParts {
        ResponseParts { status: self.status, header: self.header@, body: self.body@ }
    }
}

impl ResponseBuilder {
    #[verifier::type_invariant]
    spec fn is_consistent(self) -> bool {
        self@.consistent()
    }

    /// Sets the `Set-Cookie` header to `key=item;`. A cookie that was set
    /// before is replaced.
    pub fn set_cookie(self, key: &str, item: String) -> (out: Self)
        ensures
            out@ == (ResponseParts {
                header: HeaderFields {
                    set_cookie: Some(key@ + "="@ + item@ + ";"@),
                    ..self@.header
                },
                ..self@
            }),
    {
        proof {
            use_type_invariant(&self);
        }
        let mut cookie = String::from_str(key);
        cookie.append("=");
        cookie.append(item.as_str());
        cookie.append(";");
        let header = HttpHeader {
            content_type: self.header.content_type,
            content_length: self.header.content_length,
            connection: self.header.connection,
            set_cookie: Some(cookie),
        };
        Self { status: self.status, header, body: self.body }
    }

    /// A response with the status `status_code` whose body is the JSON text
    /// `json`.
    pub fn new(status_code: StatusCode, json: String) -> (out: Self)
        ensures
            out@ == ResponseParts::plain(status_code, json@),
    {
        Self {
            status: status_code,
            header: HttpHeader::new(json.as_str()),
            body: HttpBody::new(json),
        }
    }

    /// The response that was built.
    pub fn build(self) -> (out: Response)
        ensures
            out@ == self@,
    {
        proof {
            use_type_invariant(&self);
        }
        Response { status: self.status, header: self.header, body: self.body }
    }
}

} // verus!
