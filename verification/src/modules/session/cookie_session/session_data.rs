//! The bag of named values that one session holds.

use crate::modules::state::share;
use crate::table::{Duplicate, Table};
use std::sync::Arc;
use vstd::prelude::*;
use vstd::string::StringExecFns;

verus! {

impl<V> Duplicate for Arc<V> {
    /// Another handle to the same value.
    fn duplicate(&self) -> (out: Self) {
        share(self)
    }
}

/// The values of one session, by field name. Copies of a bag share the
/// values.
pub struct Data<V> {
    data: Table<Arc<V>>,
}

impl<V> View for Data<V> {
    type V = Map<Seq<char>, V>;

    closed spec fn view(&self) -> Map<Seq<char>, V> {
        self.data@.map_values(|value: Arc<V>| *value)
    }
}

impl<V> Clone for Data<V> {
    fn clone(&self) -> (out: Self)
        ensures
            out@ == self@,
    {
        Data { data: self.data.duplicate() }
    }
}

impl<V> Data<V> {
    /// An empty bag.
    pub fn new() -> (out: Self)
        ensures
            out@ == Map::<Seq<char>, V>::empty(),
    {
        let out = Self { data: Table::new() };
        proof {
            assert(out@ =~= Map::<Seq<char>, V>::empty());
        }
        out
    }

    /// The value of the field `id`, if the bag has that field.
    pub fn get(&self, id: &str) -> (value: Option<&V>)
        ensures
            match value {
                Some(v) => self@.contains_key(id@) && *v == self@[id@],
                None => !self@.contains_key(id@),
            },
    {
        match self.data.get(id) {
            Some(value) => Some(&**value),
            None => None,
        }
    }

    /// Gives the field `id` the value `item`. A value that the field had is
    /// replaced.
    pub fn set(&mut self, id: &str, item: V)
        ensures
            final(self)@ == old(self)@.insert(id@, item),
    {
        self.data.insert(String::from_str(id), Arc::new(item));
        proof {
            assert(self@ =~= old(self)@.insert(id@, item));
        }
    }

    /// The number of fields of the bag.
    pub fn len(&self) -> (n: usize)
        ensures
            self@.dom().finite(),
            n == self@.len(),
    {
        let n = self.data.len();
        proof {
            assert(self@.dom() =~= self.data@.dom());
        }
        n
    }
}

} // verus!
