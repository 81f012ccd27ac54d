//! Cookies: those that a request carries, the jar that holds them, and
//! those that a response sets.

use crate::decimal::{decimal, format_u64};
use crate::table::{as_map, distinct_keys, lemma_with_values, with_values, Duplicate, Table};
use vstd::prelude::*;
use vstd::string::StringExecFns;

verus! {

/// The value of one cookie of a request.
#[derive(Debug)]
pub struct CookieReq {
    value: String,
}

impl View for CookieReq {
    type V = Seq<char>;

    closed spec fn view(&self) -> Seq<char> {
        self.value@
    }
}

impl Clone for CookieReq {
    fn clone(&self) -> (out: Self)
        ensures
            out == *self,
    {
        CookieReq { value: self.value.clone() }
    }
}

impl Duplicate for CookieReq {
    fn duplicate(&self) -> (out: Self) {
        self.clone()
    }
}

impl CookieReq {
    /// A cookie with the value `value`.
    pub fn new(value: String) -> (out: Self)
        ensures
            out@ == value@,
    {
        Self { value }
    }

    /// The value of the cookie.
    pub fn get_value(&self) -> (value: String)
        ensures
            value@ == self@,
    {
        self.value.clone()
    }
}

/// The `SameSite` attribute of a cookie.
#[derive(Debug, Clone, Copy, PartialEq, Eq, Structural)]
pub enum SameSite {
    Strict,
    Lax,
    /// Written `None` in the header: the cookie goes with every request.
    Unrestricted,
}

impl SameSite {
    /// The word that stands for the attribute's value.
    pub open spec fn name(self) -> Seq<char> {
        match self {
            SameSite::Strict => "Strict"@,
            SameSite::Lax => "Lax"@,
            SameSite::Unrestricted => "None"@,
        }
    }

    /// The word that stands for the attribute's value.
    pub fn as_str(&self) -> (name: &'static str)
        ensures
            name@ == self.name(),
    {
        match self {
            SameSite::Strict => "Strict",
            SameSite::Lax => "Lax",
            SameSite::Unrestricted => "None",
        }
    }
}

/// What a response cookie holds.
pub struct CookieAttributes {
    pub name: Seq<char>,
    pub value: Seq<char>,
    pub domain: Option<Seq<char>>,
    pub path: Option<Seq<char>>,
    /// Seconds since the Unix epoch.
    pub expires: Option<u64>,
    pub max_age: Option<u64>,
    pub secure: bool,
    pub http_only: bool,
    pub same_site: Option<SameSite>,
}

/// `label` followed by `value`, or nothing when there is no value.
pub open spec fn attribute(label: Seq<char>, value: Option<Seq<char>>) -> Seq<char> {
    match value {
        Some(v) => label + v,
        None => Seq::empty(),
    }
}

/// `label` when `on` holds, else nothing.
pub open spec fn flag(label: Seq<char>, on: bool) -> Seq<char> {
    if on {
        label
    } else {
        Seq::empty()
    }
}

/// The numeral of `n`, if there is an `n`.
pub open spec fn numeral(n: Option<u64>) -> Option<Seq<char>> {
    match n {
        Some(n) => Some(decimal(n as nat)),
        None => None,
    }
}

impl CookieAttributes {
    /// The cookie as a `Set-Cookie` value: `name=value`, then each attribute
    /// that is set, in a fixed order, each behind `; `.
    pub open spec fn text(self) -> Seq<char> {
        self.name + "="@ + self.value + attribute("; Domain="@, self.domain) + attribute(
            "; Path="@,
            self.path,
        ) + attribute("; Expires="@, numeral(self.expires)) + attribute(
            "; Max-Age="@,
            numeral(self.max_age),
        ) + flag("; Secure"@, self.secure) + flag("; HttpOnly"@, self.http_only) + attribute(
            "; SameSite="@,
            match self.same_site {
                Some(s) => Some(s.name()),
                None => None,
            },
        )
    }
}

/// A cookie that a response sets.
#[derive(Debug)]
pub struct CookieRes {
    name: String,
    value: String,
    domain: Option<String>,
    path: Option<String>,
    expires: Option<u64>,
    max_age: Option<u64>,
    secure: bool,
    http_only: bool,
    same_site: Option<SameSite>,
}

/// The characters of `s`, if there is an `s`.
pub open spec fn text_of(s: Option<String>) -> Option<Seq<char>> {
    match s {
        Some(s) => Some(s@),
        None => None,
    }
}

impl View for CookieRes {
    type V = CookieAttributes;

    closed spec fn view(&self) -> CookieAttributes {
        CookieAttributes {
            name: self.name@,
            value: self.value@,
            domain: text_of(self.domain),
            path: text_of(self.path),
            expires: self.expires,
            max_age: self.max_age,
            secure: self.secure,
            http_only: self.http_only,
            same_site: self.same_site,
        }
    }
}

impl CookieRes {
    /// A cookie `name=value` with no attribute set.
    pub fn new(name: String, value: String) -> (out: Self)
        ensures
            out@ == (CookieAttributes {
                name: name@,
                value: value@,
                domain: None,
                path: None,
                expires: None,
                max_age: None,
                secure: false,
                http_only: false,
                same_site: None,
            }),
    {
        Self {
            name,
            value,
            domain: None,
            path: None,
            expires: None,
            max_age: None,
            secure: false,
            http_only: false,
            same_site: None,
        }
    }

    /// Sets the `Domain` attribute.
    pub fn set_domain(&mut self, domain: String)
        ensures
            final(self)@ == (CookieAttributes { domain: Some(domain@), ..old(self)@ }),
    {
        self.domain = Some(domain);
    }

    /// Sets the `Path` attribute.
    pub fn set_path(&mut self, path: String)
        ensures
            final(self)@ == (CookieAttributes { path: Some(path@), ..old(self)@ }),
    {
        self.path = Some(path);
    }

    /// Sets the `Expires` attribute to `expires` seconds since the Unix epoch.
    pub fn set_expires(&mut self, expires: u64)
        ensures
            final(self)@ == (CookieAttributes { expires: Some(expires), ..old(self)@ }),
    {
        self.expires = Some(expires);
    }

    /// Sets the `Max-Age` attribute, in seconds.
    pub fn set_max_age(&mut self, max_age: u64)
        ensures
            final(self)@ == (CookieAttributes { max_age: Some(max_age), ..old(self)@ }),
    {
        self.max_age = Some(max_age);
    }

    /// Sets or clears the `Secure` attribute.
    pub fn set_secure(&mut self, secure: bool)
        ensures
            final(self)@ == (CookieAttributes { secure, ..old(self)@ }),
    {
        self.secure = secure;
    }

    /// Sets or clears the `HttpOnly` attribute.
    pub fn set_http_only(&mut self, http_only: bool)
        ensures
            final(self)@ == (CookieAttributes { http_only, ..old(self)@ }),
    {
        self.http_only = http_only;
    }

    /// Sets the `SameSite` attribute.
    pub fn set_same_site(&mut self, same_site: SameSite)
        ensures
            final(self)@ == (CookieAttributes { same_site: Some(same_site), ..old(self)@ }),
    {
        self.same_site = Some(same_site);
    }

    /// The cookie as the value of a `Set-Cookie` header.
    pub fn to_string(&self) -> (out: String)
        ensures
            out@ == self@.text(),
    {
        let mut out = String::new();
        out.append(self.name.as_str());
        out.append("=");
        out.append(self.value.as_str());
        proof {
            assert(out@ =~= self@.name + "="@ + self@.value);
        }
        append_attribute(&mut out, "; Domain=", &self.domain);
        append_attribute(&mut out, "; Path=", &self.path);
        append_attribute(&mut out, "; Expires=", &format_number(self.expires));
        append_attribute(&mut out, "; Max-Age=", &format_number(self.max_age));
        append_flag(&mut out, "; Secure", self.secure);
        append_flag(&mut out, "; HttpOnly", self.http_only);
        match self.same_site {
            Some(same_site) => {
                out.append("; SameSite=");
                out.append(same_site.as_str());
                proof {
                    assert(out@ =~= self@.text());
                }
            },
            None => {
                proof {
                    assert(out@ =~= self@.text());
                }
            },
        }
        out
    }
}

/// Appends `label` and `value` to `out` when there is a value.
fn append_attribute(out: &mut String, label: &str, value: &Option<String>)
    ensures
        final(out)@ == old(out)@ + attribute(label@, text_of(*value)),
{
    match value {
        Some(v) => {
            out.append(label);
            out.append(v.as_str());
            proof {
                assert(out@ =~= old(out)@ + (label@ + v@));
            }
        },
        None => {
            proof {
                assert(out@ =~= old(out)@ + Seq::<char>::empty());
            }
        },
    }
}

/// Appends `label` to `out` when `on` holds.
fn append_flag(out: &mut String, label: &str, on: bool)
    ensures
        final(out)@ == old(out)@ + flag(label@, on),
{
    if on {
        out.append(label);
    } else {
        proof {
            assert(out@ =~= old(out)@ + Seq::<char>::empty());
        }
    }
}

/// Writes `n` as a decimal numeral when there is an `n`.
fn format_number(n: Option<u64>) -> (out: Option<String>)
    ensures
        text_of(out) == numeral(n),
{
    match n {
        Some(n) => Some(format_u64(n)),
        None => None,
    }
}

/// The cookies of one request, by name.
#[derive(Debug)]
pub struct CookieJar {
    cookies: Table<CookieReq>,
}

impl View for CookieJar {
    type V = Map<Seq<char>, Seq<char>>;

    closed spec fn view(&self) -> Map<Seq<char>, Seq<char>> {
        self.cookies@.map_values(|c: CookieReq| c@)
    }
}

impl CookieJar {
    /// An empty jar.
    pub fn new() -> (out: Self)
        ensures
            out@ == Map::<Seq<char>, Seq<char>>::empty(),
    {
        let out = Self { cookies: Table::new() };
        proof {
            assert(out@ =~= Map::<Seq<char>, Seq<char>>::empty());
        }
        out
    }

    /// Puts `cookie` into the jar under `name`. A cookie that was there under
    /// that name is replaced.
    pub fn push_cookie(&mut self, name: &str, cookie: CookieReq)
        ensures
            final(self)@ == old(self)@.insert(name@, cookie@),
    {
        self.cookies.insert(String::from_str(name), cookie);
        proof {
            assert(self@ =~= old(self)@.insert(name@, cookie@));
        }
    }

    /// The cookie named `key`, if the jar holds one.
    pub fn get(&self, key: &str) -> (cookie: Option<&CookieReq>)
        ensures
            match cookie {
                Some(c) => self@.contains_key(key@) && c@ == self@[key@],
                None => !self@.contains_key(key@),
            },
    {
        self.cookies.get(key)
    }

    /// The number of cookies in the jar.
    pub fn len(&self) -> (n: usize)
        ensures
            self@.dom().finite(),
            n == self@.len(),
    {
        let n = self.cookies.len();
        proof {
            assert(self@.dom() =~= self.cookies@.dom());
        }
        n
    }

    /// The cookies of the jar with their names, in the order in which the
    /// names first came.
    pub closed spec fn entries(&self) -> Seq<(Seq<char>, Seq<char>)> {
        with_values(self.cookies.pairs(), |c: CookieReq| c@)
    }

    /// A cursor over the cookies of the jar. It hands out each name once,
    /// and what it hands out is what the jar maps.
    pub fn iter(&self) -> (cursor: CookieJarIter<'_>)
        ensures
            cursor.remaining() == self.entries(),
            distinct_keys(self.entries()),
            as_map(self.entries()) == self@,
    {
        let n = self.cookies.len();
        proof {
            lemma_with_values(self.cookies.pairs(), |c: CookieReq| c@);
        }
        CookieJarIter { jar: self, at: 0 }
    }
}

/// A cursor over the cookies of a jar.
pub struct CookieJarIter<'a> {
    jar: &'a CookieJar,
    at: usize,
}

impl<'a> CookieJarIter<'a> {
    /// The cookies that the cursor has not handed out yet, with their names.
    pub closed spec fn remaining(&self) -> Seq<(Seq<char>, Seq<char>)> {
        if self.at <= self.jar.entries().len() {
            self.jar.entries().skip(self.at as int)
        } else {
            Seq::empty()
        }
    }

    /// Hands out the next cookie with its name, or `None` when all were
    /// handed out.
    pub fn next(&mut self) -> (item: Option<(&'a String, &'a CookieReq)>)
        ensures
            match item {
                Some(pair) => old(self).remaining().len() > 0 && (pair.0@, pair.1@) == old(
                    self,
                ).remaining()[0] && final(self).remaining() == old(self).remaining().drop_first(),
                None => old(self).remaining().len() == 0 && final(self).remaining() == old(
                    self,
                ).remaining(),
            },
    {
        let i = self.at;
        match self.jar.cookies.entry_at(i) {
            Some(entry) => {
                self.at = i + 1;
                proof {
                    let all = self.jar.entries();
                    assert(all.skip(i as int)[0] == all[i as int]);
                    assert(all.skip(i as int).drop_first() =~= all.skip(i as int + 1));
                }
                Some(entry)
            },
            None => {
                proof {
                    if self.at == self.jar.entries().len() {
                        assert(self.jar.entries().skip(self.at as int).len() == 0);
                    }
                }
                None
            },
        }
    }
}

impl Clone for CookieJar {
    fn clone(&self) -> (out: Self)
        ensures
            out@ == self@,
    {
        CookieJar { cookies: self.cookies.duplicate() }
    }
}

} // verus!
