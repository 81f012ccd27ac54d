//! A small insertion-ordered table from names to values.
//!
//! The table is a list of pairs in which no name occurs twice. Its model is
//! that list, `pairs()`; the view `@` is the map that the list stands for.

use vstd::prelude::*;

verus! {

/// Whether some pair of `pairs` has the name `key`.
pub open spec fn has_key<V>(pairs: Seq<(Seq<char>, V)>, key: Seq<char>) -> bool {
    exists|i: int| 0 <= i < pairs.len() && (#[trigger] pairs[i]).0 == key
}

/// The index of a pair named `key`.
pub open spec fn slot<V>(pairs: Seq<(Seq<char>, V)>, key: Seq<char>) -> int {
    choose|i: int| 0 <= i < pairs.len() && (#[trigger] pairs[i]).0 == key
}

/// Whether no name occurs twice in `pairs`.
pub open spec fn distinct_keys<V>(pairs: Seq<(Seq<char>, V)>) -> bool {
    forall|i: int, j: int|
        0 <= i < j < pairs.len() ==> (#[trigger] pairs[i]).0 != (#[trigger] pairs[j]).0
}

/// The map that `pairs` stands for.
pub open spec fn as_map<V>(pairs: Seq<(Seq<char>, V)>) -> Map<Seq<char>, V> {
    Map::new(|k: Seq<char>| has_key(pairs, k), |k: Seq<char>| pairs[slot(pairs, k)].1)
}

/// `pairs` after `key` was given `value`: the pair named `key` is replaced
/// where it stands, or a new pair comes last.
pub open spec fn put<V>(pairs: Seq<(Seq<char>, V)>, key: Seq<char>, value: V) -> Seq<
    (Seq<char>, V),
> {
    if has_key(pairs, key) {
        pairs.update(slot(pairs, key), (key, value))
    } else {
        pairs.push((key, value))
    }
}

/// In a list without repeated names, a pair is found under its own name.
pub proof fn lemma_slot_unique<V>(pairs: Seq<(Seq<char>, V)>, i: int)
    requires
        distinct_keys(pairs),
        0 <= i < pairs.len(),
    ensures
        has_key(pairs, pairs[i].0),
        slot(pairs, pairs[i].0) == i,
{
    let j = slot(pairs, pairs[i].0);
    assert(0 <= j < pairs.len() && pairs[j].0 == pairs[i].0);
}

/// `put` keeps names distinct and acts on the map as `Map::insert` does.
pub proof fn lemma_put<V>(pairs: Seq<(Seq<char>, V)>, key: Seq<char>, value: V)
    requires
        distinct_keys(pairs),
    ensures
        distinct_keys(put(pairs, key, value)),
        as_map(put(pairs, key, value)) == as_map(pairs).insert(key, value),
        put(pairs, key, value).len() == if has_key(pairs, key) {
            pairs.len()
        } else {
            pairs.len() + 1
        },
{
    let after = put(pairs, key, value);
    let at = if has_key(pairs, key) {
        slot(pairs, key)
    } else {
        pairs.len() as int
    };
    assert(after[at] == (key, value));
    assert forall|i: int| 0 <= i < after.len() && i != at implies after[i] == pairs[i]
        && after[i].0 != key by {}
    assert(distinct_keys(after));
    assert forall|k: Seq<char>| #[trigger] has_key(after, k) == (k == key || has_key(pairs, k)) by {
        if has_key(after, k) {
            let i = slot(after, k);
            if i != at {
                assert(pairs[i].0 == k);
            }
        }
        if k == key {
            assert(after[at].0 == k);
        } else if has_key(pairs, k) {
            let i = slot(pairs, k);
            assert(after[i].0 == k);
        }
    }
    assert forall|k: Seq<char>| has_key(after, k) implies #[trigger] as_map(after)[k] == as_map(
        pairs,
    ).insert(key, value)[k] by {
        let i = slot(after, k);
        lemma_slot_unique(after, i);
        if k != key {
            assert(pairs[i].0 == k);
            lemma_slot_unique(pairs, i);
        } else {
            lemma_slot_unique(after, at);
        }
    }
    assert(as_map(after) =~= as_map(pairs).insert(key, value));
}

/// A list without repeated names stands for a finite map with as many entries
/// as the list has pairs.
pub proof fn lemma_as_map_len<V>(pairs: Seq<(Seq<char>, V)>)
    requires
        distinct_keys(pairs),
    ensures
        as_map(pairs).dom().finite(),
        as_map(pairs).len() == pairs.len(),
    decreases pairs.len(),
{
    if pairs.len() == 0 {
        assert(as_map(pairs).dom() =~= Set::<Seq<char>>::empty());
    } else {
        let init = pairs.drop_last();
        let last = pairs.last();
        assert forall|i: int, j: int| 0 <= i < j < init.len() implies (#[trigger] init[i]).0 != (
        #[trigger] init[j]).0 by {
            assert(init[i] == pairs[i] && init[j] == pairs[j]);
        }
        lemma_as_map_len(init);
        assert(!has_key(init, last.0)) by {
            if has_key(init, last.0) {
                let i = slot(init, last.0);
                assert(pairs[i].0 == pairs[pairs.len() - 1].0);
            }
        }
        assert(put(init, last.0, last.1) =~= pairs);
        lemma_put(init, last.0, last.1);
        assert(as_map(pairs).dom() =~= as_map(init).dom().insert(last.0));
    }
}

/// `pairs` with `f` applied to each value.
pub open spec fn with_values<V, W>(pairs: Seq<(Seq<char>, V)>, f: spec_fn(V) -> W) -> Seq<
    (Seq<char>, W),
> {
    Seq::new(pairs.len(), |i: int| (pairs[i].0, f(pairs[i].1)))
}

/// Applying `f` to the values of a list without repeated names applies it
/// to the values of the map that the list stands for.
pub proof fn lemma_with_values<V, W>(pairs: Seq<(Seq<char>, V)>, f: spec_fn(V) -> W)
    requires
        distinct_keys(pairs),
    ensures
        distinct_keys(with_values(pairs, f)),
        as_map(with_values(pairs, f)) == as_map(pairs).map_values(f),
{
    let mapped = with_values(pairs, f);
    assert forall|k: Seq<char>| #[trigger] has_key(mapped, k) == has_key(pairs, k) by {
        if has_key(mapped, k) {
            let i = slot(mapped, k);
            assert(pairs[i].0 == k);
        }
        if has_key(pairs, k) {
            let i = slot(pairs, k);
            assert(mapped[i].0 == k);
        }
    }
    assert forall|k: Seq<char>| has_key(pairs, k) implies #[trigger] as_map(mapped)[k] == f(
        as_map(pairs)[k],
    ) by {
        let i = slot(pairs, k);
        assert(mapped[i].0 == k);
        lemma_slot_unique(mapped, i);
    }
    assert(as_map(mapped) =~= as_map(pairs).map_values(f));
}

/// `str::eq`: two string slices are equal exactly when they hold the same
/// characters.
#[verifier::external_body]
fn same_text(a: &str, b: &str) -> (same: bool)
    ensures
        same == (a@ == b@),
{
    a == b
}

/// Values that can be copied exactly.
pub trait Duplicate: Sized {
    /// A copy that equals the value it was made of.
    fn duplicate(&self) -> (out: Self)
        ensures
            out == *self,
    ;
}

impl Duplicate for String {
    fn duplicate(&self) -> (out: Self) {
        self.clone()
    }
}

/// An insertion-ordered table from names to values of type `V`.
#[derive(Debug)]
pub struct Table<V> {
    entries: Vec<(String, V)>,
}

impl<V> View for Table<V> {
    type V = Map<Seq<char>, V>;

    open spec fn view(&self) -> Map<Seq<char>, V> {
        as_map(self.pairs())
    }
}

impl<V> Table<V> {
    #[verifier::type_invariant]
    spec fn names_are_distinct(self) -> bool {
        distinct_keys(self.pairs())
    }

    /// The pairs of the table, in the order in which their names first came.
    pub closed spec fn pairs(&self) -> Seq<(Seq<char>, V)> {
        Seq::new(self.entries@.len(), |i: int| (self.entries@[i].0@, self.entries@[i].1))
    }

    /// An empty table.
    pub fn new() -> (out: Self)
        ensures
            out.pairs() == Seq::<(Seq<char>, V)>::empty(),
            out@ == Map::<Seq<char>, V>::empty(),
    {
        let out = Table { entries: Vec::new() };
        proof {
            assert(out.pairs() =~= Seq::<(Seq<char>, V)>::empty());
            assert(out@ =~= Map::<Seq<char>, V>::empty());
        }
        out
    }

    /// The number of pairs. No name occurs twice among them, so this is
    /// also the number of names that the table maps.
    pub fn len(&self) -> (n: usize)
        ensures
            n == self.pairs().len(),
            distinct_keys(self.pairs()),
            self@.dom().finite(),
            n == self@.len(),
    {
        proof {
            use_type_invariant(self);
            lemma_as_map_len(self.pairs());
        }
        self.entries.len()
    }

    /// The name and the value of the pair at index `i`, if the table has so
    /// many pairs.
    pub fn entry_at(&self, i: usize) -> (entry: Option<(&String, &V)>)
        ensures
            match entry {
                Some((name, value)) => i < self.pairs().len() && (name@, *value)
                    == self.pairs()[i as int],
                None => i >= self.pairs().len(),
            },
            self.pairs().len() <= usize::MAX,
    {
        if i < self.entries.len() {
            Some((&self.entries[i].0, &self.entries[i].1))
        } else {
            None
        }
    }

    /// The index of the pair named `key`, if there is one.
    fn position(&self, key: &str) -> (at: Option<usize>)
        ensures
            match at {
                Some(i) => i < self.pairs().len() && self.pairs()[i as int].0 == key@ && slot(
                    self.pairs(),
                    key@,
                ) == i && has_key(self.pairs(), key@),
                None => !has_key(self.pairs(), key@),
            },
    {
        proof {
            use_type_invariant(self);
        }
        let mut i: usize = 0;
        while i < self.entries.len()
            invariant
                i <= self.entries@.len(),
                self.pairs().len() == self.entries@.len(),
                distinct_keys(self.pairs()),
                forall|j: int| 0 <= j < i ==> (#[trigger] self.pairs()[j]).0 != key@,
            decreases self.entries@.len() - i,
        {
            if same_text(self.entries[i].0.as_str(), key) {
                proof {
                    assert(self.pairs()[i as int].0 == key@);
                    lemma_slot_unique(self.pairs(), i as int);
                }
                return Some(i);
            }
            i += 1;
        }
        None
    }

    /// Tells whether the table has a pair named `key`.
    pub fn contains_key(&self, key: &str) -> (found: bool)
        ensures
            found == self@.contains_key(key@),
    {
        self.position(key).is_some()
    }

    /// The value stored under `key`, if there is one.
    pub fn get(&self, key: &str) -> (value: Option<&V>)
        ensures
            match value {
                Some(v) => self@.contains_key(key@) && *v == self@[key@],
                None => !self@.contains_key(key@),
            },
    {
        match self.position(key) {
            Some(i) => Some(&self.entries[i].1),
            None => None,
        }
    }

    /// Stores `value` under `key`. A value that was stored under `key` before
    /// is replaced; the order of the other pairs stays.
    pub fn insert(&mut self, key: String, value: V)
        ensures
            final(self).pairs() == put(old(self).pairs(), key@, value),
            final(self)@ == old(self)@.insert(key@, value),
    {
        proof {
            use_type_invariant(&*self);
            lemma_put(self.pairs(), key@, value);
        }
        let ghost before = self.pairs();
        let at = self.position(key.as_str());
        let mut entries: Vec<(String, V)> = Vec::new();
        proof {
            assert(Seq::new(0, |i: int| (entries@[i].0@, entries@[i].1)).len() == 0);
        }
        core::mem::swap(&mut self.entries, &mut entries);
        match at {
            Some(i) => {
                entries.set(i, (key, value));
            },
            None => {
                entries.push((key, value));
            },
        }
        proof {
            assert(Seq::new(entries@.len(), |i: int| (entries@[i].0@, entries@[i].1)) =~= put(
                before,
                key@,
                value,
            ));
        }
        core::mem::swap(&mut self.entries, &mut entries);
    }
}

impl<V: Duplicate> Table<V> {
    /// A copy of the table: the same pairs in the same order.
    pub fn duplicate(&self) -> (out: Self)
        ensures
            out.pairs() == self.pairs(),
            out@ == self@,
    {
        proof {
            use_type_invariant(self);
        }
        let mut entries: Vec<(String, V)> = Vec::new();
        let mut i: usize = 0;
        while i < self.entries.len()
            invariant
                i <= self.entries@.len(),
                entries@.len() == i,
                forall|j: int|
                    0 <= j < i ==> (#[trigger] entries@[j]).0@ == self.entries@[j].0@
                        && entries@[j].1 == self.entries@[j].1,
            decreases self.entries@.len() - i,
        {
            entries.push((self.entries[i].0.clone(), self.entries[i].1.duplicate()));
            i += 1;
        }
        proof {
            assert(Seq::new(entries@.len(), |i: int| (entries@[i].0@, entries@[i].1))
                =~= self.pairs());
        }
        Table { entries }
    }
}

} // verus!
