//! Sessions that a cookie names: identifiers, and the store that keeps one
//! bag of values for each.

pub mod session_data;

use crate::modules::session::cookie_session::session_data::Data;
use vstd::hash_map::StringHashMap;
use vstd::prelude::*;

verus! {

/// The Whirlpool digest of `bytes`.
pub uninterp spec fn whirlpool(bytes: Seq<u8>) -> Seq<u8>;

/// The padded standard Base64 text of `bytes`.
pub uninterp spec fn base64(bytes: Seq<u8>) -> Seq<char>;

/// `Whirlpool::digest`: the digest of `bytes`, which is 64 bytes long.
#[verifier::external_body]
fn whirlpool_digest(bytes: &[u8]) -> (digest: Vec<u8>)
    ensures
        digest@ == whirlpool(bytes@),
        digest@.len() == 64,
{
    <whirlpool::Whirlpool as whirlpool::Digest>::digest(bytes).to_vec()
}

/// `Base64::encode_string`: the Base64 text of `bytes`. The call panics on
/// an input longer than a quarter of `usize::MAX`; such inputs are excluded.
#[verifier::external_body]
fn base64_encode(bytes: &[u8]) -> (text: String)
    requires
        bytes@.len() <= usize::MAX / 4,
    ensures
        text@ == base64(bytes@),
{
    <base64ct::Base64 as base64ct::Encoding>::encode_string(bytes)
}

/// `Utc::now` and its `to_string`: the present moment, written out. Every
/// call may give another text, so nothing is stated of it. The call panics
/// on a machine whose clock stands before 1970 or behind the last year that
/// chrono can write.
#[verifier::external_body]
fn now_text() -> (stamp: String) {
    chrono::Utc::now().to_string()
}

/// The text of the identifier that is derived from the time stamp `stamp`:
/// the Base64 text of the Whirlpool digest of the stamp's bytes.
pub open spec fn derived_id(stamp: Seq<char>) -> Seq<char> {
    base64(whirlpool(vstd::utf8::encode_utf8(stamp)))
}

/// The name of a session. It is neither secret nor hard to guess.
#[derive(Hash, Eq, PartialEq, Debug)]
pub struct SessionId(String);

impl View for SessionId {
    type V = Seq<char>;

    closed spec fn view(&self) -> Seq<char> {
        self.0@
    }
}

impl Clone for SessionId {
    fn clone(&self) -> (out: Self)
        ensures
            out == *self,
    {
        SessionId(self.0.clone())
    }
}

impl SessionId {
    /// A fresh identifier, derived from the present moment. Two calls at
    /// the same moment give the same identifier.
    pub fn new() -> (out: Self)
        ensures
            exists|stamp: Seq<char>| out@ == derived_id(stamp),
    {
        let stamp = now_text();
        Self::derive(stamp.as_str())
    }

    /// The identifier derived from the time stamp `stamp`.
    pub fn derive(stamp: &str) -> (out: Self)
        ensures
            out@ == derived_id(stamp@),
    {
        let digest = whirlpool_digest(stamp.as_bytes());
        SessionId(base64_encode(digest.as_slice()))
    }

    /// The text of the identifier.
    pub fn as_str(&self) -> (text: &str)
        ensures
            text@ == self@,
    {
        self.0.as_str()
    }

    /// The text of the identifier, as an owned string.
    pub fn to_string(&self) -> (text: String)
        ensures
            text@ == self@,
    {
        self.0.clone()
    }
}

impl SessionId {
    /// The identifier whose text is `text`.
    pub closed spec fn of(text: String) -> SessionId {
        SessionId(text)
    }

    /// The identifier made of a text holds that text.
    pub proof fn lemma_of(text: String)
        ensures
            SessionId::of(text)@ == text@,
    {
    }
}

impl From<String> for SessionId {
    /// The identifier that a client sent back.
    fn from(value: String) -> (out: Self) {
        Self(value)
    }
}

impl vstd::std_specs::convert::FromSpecImpl<String> for SessionId {
    open spec fn obeys_from_spec() -> bool {
        true
    }

    open spec fn from_spec(value: String) -> Self {
        SessionId::of(value)
    }
}

/// The store of sessions: one bag of values for each identifier.
#[verifier::reject_recursive_types(V)]
pub struct CookieSession<V> {
    sessions: StringHashMap<Data<V>>,
}

impl<V> View for CookieSession<V> {
    type V = Map<Seq<char>, Map<Seq<char>, V>>;

    closed spec fn view(&self) -> Map<Seq<char>, Map<Seq<char>, V>> {
        self.sessions@.map_values(|bag: Data<V>| bag@)
    }
}

impl<V> CookieSession<V> {
    /// Gives the field `item.0` of the session `id` the value `item.1`.
    /// Nothing happens when there is no session `id`.
    pub fn set_data_by_id(&mut self, id: SessionId, item: (&str, V))
        ensures
            final(self)@ == if old(self)@.contains_key(id@) {
                old(self)@.insert(id@, old(self)@[id@].insert(item.0@, item.1))
            } else {
                old(self)@
            },
    {
        let changed = match self.sessions.get(id.as_str()) {
            Some(bag) => {
                let mut bag = bag.clone();
                bag.set(item.0, item.1);
                Some(bag)
            },
            None => None,
        };
        match changed {
            Some(bag) => {
                self.sessions.insert(id.0, bag);
                proof {
                    assert(self@ =~= old(self)@.insert(
                        id@,
                        old(self)@[id@].insert(item.0@, item.1),
                    ));
                }
            },
            None => {
                proof {
                    assert(self@ =~= old(self)@);
                }
            },
        }
    }

    /// A store without sessions.
    pub fn new() -> (out: Self)
        ensures
            out@ == Map::<Seq<char>, Map<Seq<char>, V>>::empty(),
    {
        let out = Self { sessions: StringHashMap::new() };
        proof {
            assert(out@ =~= Map::<Seq<char>, Map<Seq<char>, V>>::empty());
        }
        out
    }

    /// Opens a session under a fresh identifier, with an empty bag, and
    /// returns the identifier. A session that had the same identifier is
    /// emptied.
    pub fn create_new_session(&mut self) -> (id: SessionId)
        ensures
            final(self)@ == old(self)@.insert(id@, Map::empty()),
            exists|stamp: Seq<char>| id@ == derived_id(stamp),
    {
        let id = SessionId::new();
        self.open_session(&id);
        id
    }

    /// Opens the session `id` with an empty bag. A session that had the
    /// same identifier is emptied.
    pub fn open_session(&mut self, id: &SessionId)
        ensures
            final(self)@ == old(self)@.insert(id@, Map::empty()),
    {
        self.sessions.insert(id.to_string(), Data::new());
        proof {
            assert(self@ =~= old(self)@.insert(id@, Map::empty()));
        }
    }

    /// A copy of the bag of the session `id`, if there is such a session.
    pub fn get_session_data(&self, id: SessionId) -> (bag: Option<Data<V>>)
        ensures
            match bag {
                Some(b) => self@.contains_key(id@) && b@ == self@[id@],
                None => !self@.contains_key(id@),
            },
    {
        match self.sessions.get(id.as_str()) {
            Some(bag) => Some(bag.clone()),
            None => None,
        }
    }
}

} // verus!
