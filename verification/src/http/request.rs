//! Requests, and the parser that reads one from the raw text of a
//! connection.

use crate::http::cookie::{CookieJar, CookieReq};
use crate::http::method::Method;
use crate::http::HttpBody;
use crate::text::{
    chars_of, find_in, first_in, has_prefix, lines, push_all, split,
    split_at_char, split_lines, split_tokens, starts_with, string_of, tokens, trim, trim_start,
    trimmed, trimmed_start, views, CharClass,
};
use vstd::prelude::*;
use vstd::slice::slice_subrange;

verus! {

/// Why a raw request was not understood. A connection whose request fails to
/// parse is closed without a response.
#[derive(Debug, Clone, Copy, PartialEq, Eq, Structural)]
pub enum ParseError {
    /// The first line does not hold exactly three words.
    InvalidRequestLine,
    /// The first word of the first line names no method.
    UnsupportedMethod,
    /// An entry of a `Cookie` header holds no `=`.
    MalformedCookie,
}

/// What a request holds.
pub struct RequestParts {
    pub method: Method,
    pub path: Seq<char>,
    /// The header lines, in order, without their line ends.
    pub headers: Seq<Seq<char>>,
    /// The cookies by name.
    pub cookies: Map<Seq<char>, Seq<char>>,
    pub body: Seq<char>,
}

/// The index of the first empty line of `ls` at or after `from`, or the
/// number of lines when there is none.
pub open spec fn first_blank(ls: Seq<Seq<char>>, from: int) -> int
    decreases ls.len() - from,
{
    if from >= ls.len() {
        ls.len() as int
    } else if from >= 0 && ls[from].len() == 0 {
        from
    } else {
        first_blank(ls, from + 1)
    }
}

/// The lines of `ls` from `from` on, each trimmed of the white space around
/// it, one after the other with nothing between them.
pub open spec fn joined(ls: Seq<Seq<char>>, from: int) -> Seq<char>
    decreases ls.len() - from,
{
    if from < 0 || from >= ls.len() {
        Seq::empty()
    } else {
        trim(ls[from]) + joined(ls, from + 1)
    }
}

/// The name and the value of one entry of a `Cookie` header: white space
/// before the name is dropped, the first `=` parts name and value.
pub open spec fn cookie_pair(piece: Seq<char>) -> Option<(Seq<char>, Seq<char>)> {
    let entry = trim_start(piece);
    let eq = first_in(entry, CharClass::Exactly('='), 0);
    if eq < entry.len() {
        Some((entry.take(eq), entry.skip(eq + 1)))
    } else {
        None
    }
}

/// `jar` after the entries `pieces[from..]` went into it in order, or `None`
/// when one of them is no entry.
pub open spec fn with_entries(
    jar: Map<Seq<char>, Seq<char>>,
    pieces: Seq<Seq<char>>,
    from: int,
) -> Option<Map<Seq<char>, Seq<char>>>
    decreases pieces.len() - from,
{
    if from < 0 || from >= pieces.len() {
        Some(jar)
    } else {
        match cookie_pair(pieces[from]) {
            Some(pair) => with_entries(jar.insert(pair.0, pair.1), pieces, from + 1),
            None => None,
        }
    }
}

/// The entries of the header line `header` when it is a `Cookie` header.
pub open spec fn cookie_pieces(header: Seq<char>) -> Option<Seq<Seq<char>>> {
    if starts_with(header, "Cookie: "@) {
        Some(split(header.skip("Cookie: "@.len() as int), ';'))
    } else {
        None
    }
}

/// `jar` after the cookies of the header lines `headers[from..]` went into it
/// in order, or `None` when a `Cookie` header holds an entry without `=`.
pub open spec fn with_cookies(
    jar: Map<Seq<char>, Seq<char>>,
    headers: Seq<Seq<char>>,
    from: int,
) -> Option<Map<Seq<char>, Seq<char>>>
    decreases headers.len() - from,
{
    if from < 0 || from >= headers.len() {
        Some(jar)
    } else {
        match cookie_pieces(headers[from]) {
            Some(pieces) => match with_entries(jar, pieces, 0) {
                Some(next) => with_cookies(next, headers, from + 1),
                None => None,
            },
            None => with_cookies(jar, headers, from + 1),
        }
    }
}

/// The header lines of a request whose lines are `ls`: those between the
/// request line and the first empty line.
pub open spec fn header_lines(ls: Seq<Seq<char>>) -> Seq<Seq<char>> {
    ls.subrange(1, first_blank(ls, 1))
}

/// What the raw text `raw` says.
///
/// The first line must hold exactly three words: a method, a path and a
/// protocol version. The lines after it are headers up to the first empty
/// line; that line and all after it make the body, each trimmed and all
/// joined. Every header that begins with `Cookie: ` gives its entries to the
/// cookie jar, a later entry of a name replacing an earlier one.
pub open spec fn parsed(raw: Seq<char>) -> Result<RequestParts, ParseError> {
    let ls = lines(raw);
    if ls.len() == 0 || tokens(ls[0]).len() != 3 {
        Err(ParseError::InvalidRequestLine)
    } else {
        match Method::named(tokens(ls[0])[0]) {
            None => Err(ParseError::UnsupportedMethod),
            Some(method) => match with_cookies(Map::empty(), header_lines(ls), 0) {
                None => Err(ParseError::MalformedCookie),
                Some(cookies) => Ok(
                    RequestParts {
                        method,
                        path: tokens(ls[0])[1],
                        headers: header_lines(ls),
                        cookies,
                        body: joined(ls, first_blank(ls, 1)),
                    },
                ),
            },
        }
    }
}

/// A request line with fewer or more than three words, and that alone, is
/// an invalid request line.
pub proof fn lemma_word_count(raw: Seq<char>)
    ensures
        parsed(raw) == Err::<RequestParts, ParseError>(ParseError::InvalidRequestLine) <==> (lines(
            raw,
        ).len() == 0 || tokens(lines(raw)[0]).len() != 3),
{
}

/// `first_blank` lands between `from` and the number of lines, on an empty
/// line, and passes over none.
pub proof fn lemma_first_blank(ls: Seq<Seq<char>>, from: int)
    requires
        0 <= from <= ls.len(),
    ensures
        from <= first_blank(ls, from) <= ls.len(),
        first_blank(ls, from) < ls.len() ==> ls[first_blank(ls, from)].len() == 0,
        forall|j: int| from <= j < first_blank(ls, from) ==> (#[trigger] ls[j]).len() != 0,
    decreases ls.len() - from,
{
    if from < ls.len() && ls[from].len() != 0 {
        lemma_first_blank(ls, from + 1);
    }
}

/// The texts of a vector of strings, in order.
pub open spec fn texts(v: Seq<String>) -> Seq<Seq<char>> {
    Seq::new(v.len(), |i: int| v[i]@)
}

/// One request, as the parser read it off a connection.
#[derive(Debug)]
pub struct Request {
    method: Method,
    path: String,
    headers: Vec<String>,
    body: HttpBody,
    cookie_jar: CookieJar,
}

impl View for Request {
    type V = RequestParts;

    closed spec fn view(&self) -> RequestParts {
        RequestParts {
            method: self.method,
            path: self.path@,
            headers: texts(self.headers@),
            cookies: self.cookie_jar@,
            body: self.body@,
        }
    }
}

impl Request {
    /// Replaces the cookie jar of the request.
    pub fn set_cookie_jar(&mut self, cookie_jar: CookieJar)
        ensures
            final(self)@ == (RequestParts { cookies: cookie_jar@, ..old(self)@ }),
    {
        self.cookie_jar = cookie_jar;
    }

    /// The method of the request.
    pub fn get_method(&self) -> (method: Method)
        ensures
            method == self@.method,
    {
        self.method
    }

    /// The path of the request, as it stood on the request line.
    pub fn get_path(&self) -> (path: &str)
        ensures
            path@ == self@.path,
    {
        self.path.as_str()
    }

    /// The header lines of the request.
    pub fn get_headers(&self) -> (headers: &Vec<String>)
        ensures
            texts(headers@) == self@.headers,
    {
        &self.headers
    }

    /// The body of the request, as text. Decoding it is left to the handler.
    pub fn get_body(&self) -> (body: &str)
        ensures
            body@ == self@.body,
    {
        self.body.as_str()
    }

    /// A copy of the cookie jar of the request.
    pub fn get_cookie_jar(&self) -> (jar: CookieJar)
        ensures
            jar@ == self@.cookies,
    {
        self.cookie_jar.clone()
    }
}

/// Builds a request piece by piece.
pub struct RequestBuilder {
    method: Method,
    path: String,
    headers: Vec<String>,
    body: HttpBody,
    cookie_jar: CookieJar,
}

impl View for RequestBuilder {
    type V = RequestParts;

    closed spec fn view(&self) -> RequestParts {
        RequestParts {
            method: self.method,
            path: self.path@,
            headers: texts(self.headers@),
            cookies: self.cookie_jar@,
            body: self.body@,
        }
    }
}

impl RequestBuilder {
    /// A request with the given method and body, an empty path, no headers
    /// and no cookies.
    pub fn new(method: Method, body: String) -> (out: Self)
        ensures
            out@ == (RequestParts {
                method,
                path: Seq::empty(),
                headers: Seq::empty(),
                cookies: Map::empty(),
                body: body@,
            }),
    {
        let out = Self {
            method,
            path: String::new(),
            headers: Vec::new(),
            body: HttpBody::new(body),
            cookie_jar: CookieJar::new(),
        };
        proof {
            assert(texts(out.headers@) =~= Seq::<Seq<char>>::empty());
        }
        out
    }

    /// Sets the path.
    pub fn set_path(self, path: String) -> (out: Self)
        ensures
            out@ == (RequestParts { path: path@, ..self@ }),
    {
        Self { path, ..self }
    }

    /// Sets the header lines.
    pub fn set_headers(self, headers: Vec<String>) -> (out: Self)
        ensures
            out@ == (RequestParts { headers: texts(headers@), ..self@ }),
    {
        Self { headers, ..self }
    }

    /// Sets the cookie jar.
    pub fn set_cookie_jar(self, cookie_jar: CookieJar) -> (out: Self)
        ensures
            out@ == (RequestParts { cookies: cookie_jar@, ..self@ }),
    {
        Self { cookie_jar, ..self }
    }

    /// The request that was built.
    pub fn build(self) -> (out: Request)
        ensures
            out@ == self@,
    {
        Request {
            method: self.method,
            path: self.path,
            headers: self.headers,
            body: self.body,
            cookie_jar: self.cookie_jar,
        }
    }
}

/// Copies the header lines out of the lines of a request.
fn collect_headers(ls: &Vec<&[char]>) -> (out: (Vec<String>, usize))
    requires
        ls@.len() >= 1,
    ensures
        out.1 == first_blank(views(ls@), 1),
        1 <= out.1 <= ls@.len(),
        texts(out.0@) == header_lines(views(ls@)),
{
    let mut headers: Vec<String> = Vec::new();
    let mut i: usize = 1;
    while i < ls.len() && ls[i].len() != 0
        invariant
            1 <= i <= ls@.len(),
            headers@.len() == i - 1,
            forall|j: int| 1 <= j < i ==> (#[trigger] views(ls@)[j]).len() != 0,
            forall|j: int| 0 <= j < i - 1 ==> (#[trigger] headers@[j])@ == views(ls@)[j + 1],
        decreases ls@.len() - i,
    {
        headers.push(string_of(ls[i]));
        i += 1;
    }
    proof {
        let lv = views(ls@);
        lemma_first_blank(lv, 1);
        let fb = first_blank(lv, 1);
        if fb < i {
            assert(lv[fb].len() != 0);
        }
        if i < fb {
            assert(lv[i as int].len() != 0);
        }
        assert(texts(headers@) =~= header_lines(lv));
    }
    (headers, i)
}

/// Joins the trimmed lines from `from` on into the body.
fn join_body(ls: &Vec<&[char]>, from: usize) -> (out: String)
    requires
        from <= ls@.len(),
    ensures
        out@ == joined(views(ls@), from as int),
{
    let mut body: Vec<char> = Vec::new();
    let mut i: usize = from;
    while i < ls.len()
        invariant
            from <= i <= ls@.len(),
            body@ + joined(views(ls@), i as int) == joined(views(ls@), from as int),
        decreases ls@.len() - i,
    {
        let ghost before = body@;
        push_all(&mut body, trimmed(ls[i]));
        proof {
            let lv = views(ls@);
            assert(body@ + joined(lv, i as int + 1) =~= before + joined(lv, i as int));
        }
        i += 1;
    }
    proof {
        assert(body@ + joined(views(ls@), i as int) =~= body@);
    }
    string_of(body.as_slice())
}

/// Puts the entries `pieces` of one `Cookie` header into `jar`. Tells whether
/// every piece was an entry; when one was not, the jar is left as it was
/// when that piece was reached.
fn add_entries(jar: &mut CookieJar, pieces: &Vec<&[char]>) -> (done: bool)
    ensures
        done ==> with_entries(old(jar)@, views(pieces@), 0) == Some(final(jar)@),
        !done ==> with_entries(old(jar)@, views(pieces@), 0) is None,
{
    let mut i: usize = 0;
    while i < pieces.len()
        invariant
            i <= pieces@.len(),
            with_entries(jar@, views(pieces@), i as int) == with_entries(
                old(jar)@,
                views(pieces@),
                0,
            ),
        decreases pieces@.len() - i,
    {
        let entry = trimmed_start(pieces[i]);
        let eq = find_in(entry, CharClass::Exactly('='), 0);
        if eq >= entry.len() {
            return false;
        }
        let name = string_of(slice_subrange(entry, 0, eq));
        let value = string_of(slice_subrange(entry, eq + 1, entry.len()));
        proof {
            assert(cookie_pair(views(pieces@)[i as int]) == Some((name@, value@)));
        }
        jar.push_cookie(name.as_str(), CookieReq::new(value));
        i += 1;
    }
    true
}

/// Reads the cookies of the header lines `ls[1..end]` into a jar.
fn read_cookies(ls: &Vec<&[char]>, end: usize) -> (out: Option<CookieJar>)
    requires
        1 <= end <= ls@.len(),
    ensures
        match out {
            Some(jar) => with_cookies(Map::empty(), views(ls@).subrange(1, end as int), 0) == Some(
                jar@,
            ),
            None => with_cookies(Map::empty(), views(ls@).subrange(1, end as int), 0) is None,
        },
{
    let prefix = chars_of("Cookie: ");
    let mut jar = CookieJar::new();
    let ghost headers = views(ls@).subrange(1, end as int);
    let mut i: usize = 1;
    while i < end
        invariant
            1 <= i <= end <= ls@.len(),
            prefix@ == "Cookie: "@,
            headers == views(ls@).subrange(1, end as int),
            with_cookies(jar@, headers, i - 1) == with_cookies(Map::empty(), headers, 0),
        decreases end - i,
    {
        let line = ls[i];
        proof {
            assert(headers[i - 1] == line@);
        }
        if has_prefix(line, prefix.as_slice()) {
            let rest = slice_subrange(line, prefix.len(), line.len());
            let pieces = split_at_char(rest, ';');
            if !add_entries(&mut jar, &pieces) {
                return None;
            }
        }
        i += 1;
    }
    Some(jar)
}

/// Reads a request from the raw text of a connection.
pub fn parse_request(raw: &str) -> (out: Result<Request, ParseError>)
    ensures
        match out {
            Ok(request) => parsed(raw@) == Ok::<RequestParts, ParseError>(request@),
            Err(e) => parsed(raw@) == Err::<RequestParts, ParseError>(e),
        },
{
    let chars = chars_of(raw);
    let ls = split_lines(chars.as_slice());
    if ls.len() == 0 {
        return Err(ParseError::InvalidRequestLine);
    }
    let words = split_tokens(ls[0]);
    proof {
        assert(views(ls@)[0] == ls@[0]@);
    }
    if words.len() != 3 {
        return Err(ParseError::InvalidRequestLine);
    }
    proof {
        assert(views(words@)[0] == words@[0]@);
        assert(views(words@)[1] == words@[1]@);
    }
    let method = match Method::from_token(words[0]) {
        Some(method) => method,
        None => {
            return Err(ParseError::UnsupportedMethod);
        },
    };
    let path = string_of(words[1]);
    let (headers, end) = collect_headers(&ls);
    let body = join_body(&ls, end);
    let cookie_jar = match read_cookies(&ls, end) {
        Some(jar) => jar,
        None => {
            return Err(ParseError::MalformedCookie);
        },
    };
    Ok(Request { method, path, headers, body: HttpBody::new(body), cookie_jar })
}

} // verus!
