//! Shared state: one value behind a reader-writer lock, reached through
//! handles that can be cloned and sent to every connection.

use std::sync::Arc;
use std::sync::RwLock;
use std::sync::RwLockReadGuard;
use std::sync::RwLockWriteGuard;
use vstd::hash_map::StringHashMap;
use vstd::prelude::*;

verus! {

/// `std::sync::RwLock`, taken as it is: nothing is known of what a lock
/// guards.
#[verifier::external_type_specification]
#[verifier::external_body]
#[verifier::reject_recursive_types(T)]
pub struct ExRwLock<T: ?Sized>(RwLock<T>);

/// `std::sync::RwLockReadGuard`, taken as it is: shared access to what a
/// lock guards, given up when the guard is dropped.
#[verifier::external_type_specification]
#[verifier::external_body]
#[verifier::reject_recursive_types(T)]
pub struct ExRwLockReadGuard<'a, T: ?Sized>(RwLockReadGuard<'a, T>);

/// `std::sync::RwLockWriteGuard`, taken as it is: exclusive access to what
/// a lock guards, given up when the guard is dropped.
#[verifier::external_type_specification]
#[verifier::external_body]
#[verifier::reject_recursive_types(T)]
pub struct ExRwLockWriteGuard<'a, T: ?Sized + 'a>(RwLockWriteGuard<'a, T>);

/// `RwLock::new`: a lock that guards `value`. What a lock holds changes
/// under other threads, so nothing is stated of it.
pub assume_specification<T>[ RwLock::<T>::new ](value: T) -> (lock: RwLock<T>)
;

/// `Arc::clone`: one more handle to the same allocation, and so to the same
/// value.
#[verifier::external_body]
pub(crate) fn share<T>(handle: &Arc<T>) -> (out: Arc<T>)
    ensures
        out == *handle,
{
    handle.clone()
}

/// `RwLock::read`: waits until no writer holds the lock, then hands out
/// shared access. A lock that a panicking writer poisoned is read all the
/// same. Nothing is stated of the value, which other threads may have
/// changed. A thread that asks while it holds the lock itself may wait for
/// ever or panic.
#[verifier::external_body]
fn lock_shared<'a, T>(lock: &'a Arc<RwLock<T>>) -> (guard: RwLockReadGuard<'a, T>) {
    match lock.read() {
        Ok(guard) => guard,
        Err(poisoned) => poisoned.into_inner(),
    }
}

/// `RwLock::write`: waits until nobody else holds the lock, then hands out
/// exclusive access. A lock that a panicking writer poisoned is taken all
/// the same. Nothing is stated of the value, which other threads may have
/// changed. A thread that asks while it holds the lock itself may wait for
/// ever or panic.
#[verifier::external_body]
fn lock_exclusive<'a, T>(lock: &'a Arc<RwLock<T>>) -> (guard: RwLockWriteGuard<'a, T>) {
    match lock.write() {
        Ok(guard) => guard,
        Err(poisoned) => poisoned.into_inner(),
    }
}

/// A handle to a value of type `T` that every holder of a handle shares.
/// Any number of readers, or one writer, hold the value at a time.
#[verifier::reject_recursive_types(T)]
pub struct State<T>(Arc<RwLock<T>>);

impl<T> Clone for State<T> {
    /// Another handle to the same value.
    fn clone(&self) -> (out: Self)
        ensures
            out == *self,
    {
        State(share(&self.0))
    }
}

impl<T> State<T> {
    /// A new shared value, and the first handle to it.
    pub fn new(value: T) -> Self {
        Self(Arc::new(RwLock::new(value)))
    }

    /// Waits until no writer holds the value, then gives shared access to
    /// it for as long as the guard lives. A thread must not ask while it
    /// holds a guard for writing.
    pub fn read(&self) -> RwLockReadGuard<'_, T> {
        lock_shared(&self.0)
    }

    /// Waits until nobody else holds the value, then gives exclusive
    /// access to it for as long as the guard lives. A thread must not ask
    /// while it holds another guard of the same value.
    pub fn write(&self) -> RwLockWriteGuard<'_, T> {
        lock_exclusive(&self.0)
    }
}

/// The shared state of a server: slots by name. A slot is a value of type
/// `S` that the library never looks into; a server that keeps state of
/// several types stores handles whose type is erased.
#[verifier::reject_recursive_types(S)]
pub struct StateStore<S> {
    slots: StringHashMap<S>,
}

impl<S> View for StateStore<S> {
    type V = Map<Seq<char>, S>;

    closed spec fn view(&self) -> Map<Seq<char>, S> {
        self.slots@
    }
}

impl<S> StateStore<S> {
    /// A store without slots.
    pub fn new() -> (out: Self)
        ensures
            out@ == Map::<Seq<char>, S>::empty(),
    {
        Self { slots: StringHashMap::new() }
    }

    /// Files `slot` under `name`. A slot that was filed under `name` before
    /// is replaced.
    pub fn insert(&mut self, name: String, slot: S)
        ensures
            final(self)@ == old(self)@.insert(name@, slot),
    {
        self.slots.insert(name, slot);
    }

    /// The slot filed under `name`, if there is one.
    pub fn get(&self, name: &str) -> (slot: Option<&S>)
        ensures
            match slot {
                Some(s) => self@.contains_key(name@) && *s == self@[name@],
                None => !self@.contains_key(name@),
            },
    {
        self.slots.get(name)
    }
}

impl<T> StateStore<State<T>> {
    /// Waits for shared access to the value of the slot `name`. `None` when
    /// there is no such slot.
    pub fn read(&self, name: &str) -> (guard: Option<RwLockReadGuard<'_, T>>)
        ensures
            guard is Some == self@.contains_key(name@),
    {
        match self.slots.get(name) {
            Some(state) => Some(state.read()),
            None => None,
        }
    }

    /// Waits for exclusive access to the value of the slot `name`. `None`
    /// when there is no such slot.
    pub fn write(&self, name: &str) -> (guard: Option<RwLockWriteGuard<'_, T>>)
        ensures
            guard is Some == self@.contains_key(name@),
    {
        match self.slots.get(name) {
            Some(state) => Some(state.write()),
            None => None,
        }
    }
}

} // verus!
