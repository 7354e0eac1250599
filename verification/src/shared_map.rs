//! A small in-memory map from integer keys to owned string values.
//!
//! The map is the state that several workers read and update; an embedding
//! shares one instance behind a lock and serialises the calls, so each
//! operation here is a single atomic unit of work on `&mut self` or `&self`.

use vstd::prelude::*;

verus! {

use std::collections::HashMap;

broadcast use vstd::std_specs::hash::group_hash_axioms;

/// A map from `i32` keys to `String` values; its abstract value (`self@`)
/// is the corresponding mathematical `Map`.
pub struct SharedMap {
    data: HashMap<i32, String>,
}

impl View for SharedMap {
    type V = Map<i32, String>;

    closed spec fn view(&self) -> Map<i32, String> {
        self.data@
    }
}

impl SharedMap {
    /// Creates an empty map.
    pub fn new() -> (m: Self)
        ensures
            m@ == Map::<i32, String>::empty(),
    {
        SharedMap { data: HashMap::new() }
    }

    /// Binds `key` to `value`, replacing any previous binding of `key`.
    pub fn insert(&mut self, key: i32, value: String)
        ensures
            final(self)@ == old(self)@.insert(key, value),
    {
        self.data.insert(key, value);
    }

    /// Returns a copy of the value bound to `key`, or `None` when `key` is
    /// unbound.
    pub fn get(&self, key: i32) -> (result: Option<String>)
        ensures
            result == if self@.contains_key(key) {
                Some(self@[key])
            } else {
                None::<String>
            },
    {
        match self.data.get(&key) {
            Some(value) => Some(value.clone()),
            None => None,
        }
    }
}

} // verus!
