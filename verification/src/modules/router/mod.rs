//! The routing table: handlers by method and exact path.

pub mod route;

use crate::http::method::Method;
use crate::modules::router::route::Route;
use vstd::hash_map::StringHashMap;
use vstd::prelude::*;

verus! {

/// What a route is filed under: a method and a path. Paths are compared
/// character for character, with no normalisation.
pub type RouteKey = (Method, Seq<char>);

/// `table` after each pair of `entries` was inserted in order.
pub open spec fn inserted<H>(
    table: Map<RouteKey, Route<H>>,
    entries: Seq<(RouteKey, Route<H>)>,
) -> Map<RouteKey, Route<H>>
    decreases entries.len(),
{
    if entries.len() == 0 {
        table
    } else {
        inserted(table, entries.drop_last()).insert(entries.last().0, entries.last().1)
    }
}

/// The last route inserted under a key is the one that a lookup finds:
/// when no entry behind `entries[i]` has its key, the table maps that key to
/// the route of `entries[i]`, whatever was inserted before.
pub proof fn lemma_last_insert_wins<H>(
    table: Map<RouteKey, Route<H>>,
    entries: Seq<(RouteKey, Route<H>)>,
    i: int,
)
    requires
        0 <= i < entries.len(),
        forall|j: int| i < j < entries.len() ==> (#[trigger] entries[j]).0 != entries[i].0,
    ensures
        inserted(table, entries).contains_key(entries[i].0),
        inserted(table, entries)[entries[i].0] == entries[i].1,
    decreases entries.len(),
{
    if i < entries.len() - 1 {
        let init = entries.drop_last();
        assert(init[i] == entries[i]);
        assert forall|j: int| i < j < init.len() implies (#[trigger] init[j]).0 != init[i].0 by {
            assert(init[j] == entries[j]);
        }
        lemma_last_insert_wins(table, init, i);
        assert(entries.last() == entries[entries.len() - 1]);
    }
}

/// Inserting routes under one key, one after the other, leaves the last of
/// them under that key.
pub proof fn lemma_same_key_last_wins<H>(
    table: Map<RouteKey, Route<H>>,
    key: RouteKey,
    routes: Seq<Route<H>>,
)
    requires
        routes.len() > 0,
    ensures
        inserted(table, routes.map_values(|r: Route<H>| (key, r))).contains_key(key),
        inserted(table, routes.map_values(|r: Route<H>| (key, r)))[key] == routes.last(),
{
    let entries = routes.map_values(|r: Route<H>| (key, r));
    lemma_last_insert_wins(table, entries, entries.len() - 1);
}

/// Keys that no entry has keep what the table held for them.
pub proof fn lemma_insert_keeps_other_keys<H>(
    table: Map<RouteKey, Route<H>>,
    entries: Seq<(RouteKey, Route<H>)>,
    key: RouteKey,
)
    requires
        forall|j: int| 0 <= j < entries.len() ==> (#[trigger] entries[j]).0 != key,
    ensures
        inserted(table, entries).contains_key(key) == table.contains_key(key),
        table.contains_key(key) ==> inserted(table, entries)[key] == table[key],
    decreases entries.len(),
{
    if entries.len() > 0 {
        let init = entries.drop_last();
        assert forall|j: int| 0 <= j < init.len() implies (#[trigger] init[j]).0 != key by {
            assert(init[j] == entries[j]);
        }
        lemma_insert_keeps_other_keys(table, init, key);
        assert(entries.last() == entries[entries.len() - 1]);
    }
}

/// The routing table.
#[verifier::reject_recursive_types(H)]
pub struct Router<H> {
    get: StringHashMap<Route<H>>,
    post: StringHashMap<Route<H>>,
    put: StringHashMap<Route<H>>,
    delete: StringHashMap<Route<H>>,
}

impl<H> View for Router<H> {
    type V = Map<RouteKey, Route<H>>;

    closed spec fn view(&self) -> Map<RouteKey, Route<H>> {
        Map::new(
            |key: RouteKey| self.paths(key.0).contains_key(key.1),
            |key: RouteKey| self.paths(key.0)[key.1],
        )
    }
}

impl<H> Router<H> {
    /// The routes of one method, by path.
    closed spec fn paths(&self, method: Method) -> Map<Seq<char>, Route<H>> {
        match method {
            Method::GET => self.get@,
            Method::POST => self.post@,
            Method::PUT => self.put@,
            Method::DELETE => self.delete@,
        }
    }

    /// A table without routes.
    pub fn new() -> (out: Self)
        ensures
            out@ == Map::<RouteKey, Route<H>>::empty(),
    {
        let out = Self {
            get: StringHashMap::new(),
            post: StringHashMap::new(),
            put: StringHashMap::new(),
            delete: StringHashMap::new(),
        };
        proof {
            assert(out@ =~= Map::<RouteKey, Route<H>>::empty());
        }
        out
    }

    /// Files `route` under `key`. A route that was filed under `key` before
    /// is replaced.
    pub fn insert(&mut self, key: (Method, String), route: Route<H>)
        ensures
            final(self)@ == old(self)@.insert((key.0, key.1@), route),
    {
        let (method, path) = key;
        match method {
            Method::GET => self.get.insert(path, route),
            Method::POST => self.post.insert(path, route),
            Method::PUT => self.put.insert(path, route),
            Method::DELETE => self.delete.insert(path, route),
        }
        proof {
            assert(self@ =~= old(self)@.insert((key.0, key.1@), route));
        }
    }

    /// The route filed under `key`, if there is one.
    pub fn get(&self, key: (Method, String)) -> (route: Option<&Route<H>>)
        ensures
            match route {
                Some(r) => self@.contains_key((key.0, key.1@)) && *r == self@[(key.0, key.1@)],
                None => !self@.contains_key((key.0, key.1@)),
            },
    {
        self.lookup(key.0, key.1.as_str())
    }

    /// The route that answers `method` on `path`, if there is one.
    pub fn lookup(&self, method: Method, path: &str) -> (route: Option<&Route<H>>)
        ensures
            match route {
                Some(r) => self@.contains_key((method, path@)) && *r == self@[(method, path@)],
                None => !self@.contains_key((method, path@)),
            },
    {
        match method {
            Method::GET => self.get.get(path),
            Method::POST => self.post.get(path),
            Method::PUT => self.put.get(path),
            Method::DELETE => self.delete.get(path),
        }
    }

    /// Files each of `routes`, in order, under its own method and path.
    pub fn extend(&mut self, routes: Vec<Route<H>>)
        ensures
            final(self)@ == inserted(old(self)@, routes@.map_values(|r: Route<H>| (r.key(), r))),
    {
        let ghost all = routes@.map_values(|r: Route<H>| (r.key(), r));
        let ghost start = self@;
        for route in it: routes
            invariant
                it.seq().len() == all.len(),
                forall|i: int| 0 <= i < all.len() ==> all[i] == (it.seq()[i].key(), it.seq()[i]),
                self@ == inserted(start, all.take(it.index() as int)),
        {
            let ghost n = it.index() as int;
            let key = route.get();
            self.insert(key, route);
            proof {
                assert(all.take(n + 1).drop_last() =~= all.take(n));
                assert(all.take(n + 1).last() == all[n]);
            }
        }
        proof {
            assert(all.take(all.len() as int) =~= all);
        }
    }
}

} // verus!
