//! The correlation store: a map from the correlation identifier of one
//! in-flight call to the timestamp at which its entry was observed.
//!
//! An entry is inserted when a call enters and removed by the matching
//! exit; key uniqueness is the single correctness invariant, since two
//! live calls sharing an identifier would read each other's start times.
//! Callers that share one store across threads hold it under mutual
//! exclusion; every operation here is a short critical section with no
//! I/O in it.

use vstd::prelude::*;

use std::collections::HashMap;

verus! {

broadcast use vstd::std_specs::hash::group_hash_axioms;

/// The pending entry observations, keyed by correlation identifier.
pub struct PendingMap {
    map: HashMap<u128, u64>,
}

impl View for PendingMap {
    type V = Map<u128, u64>;

    closed spec fn view(&self) -> Map<u128, u64> {
        self.map@
    }
}

impl PendingMap {
    /// A fresh store with no pending calls.
    pub fn new() -> (r: Self)
        ensures
            r@ == Map::<u128, u64>::empty(),
    {
        PendingMap { map: HashMap::new() }
    }

    /// Records the entry observation of the call `id` at `start_ns`. A
    /// colliding identifier overwrites the stale entry rather than letting
    /// two live calls share one.
    pub fn insert(&mut self, id: u128, start_ns: u64)
        ensures
            final(self)@ == old(self)@.insert(id, start_ns),
    {
        self.map.insert(id, start_ns);
    }

    /// Consumes and returns the pending entry of the call `id`, or `None`
    /// when no entry is pending (already consumed, or never entered).
    pub fn take(&mut self, id: u128) -> (r: Option<u64>)
        ensures
            final(self)@ == old(self)@.remove(id),
            match r {
                Some(t) => old(self)@.contains_key(id) && t == old(self)@[id],
                None => !old(self)@.contains_key(id),
            },
    {
        self.map.remove(&id)
    }

    /// Whether an entry observation for `id` is pending.
    pub fn contains(&self, id: u128) -> (r: bool)
        ensures
            r == self@.contains_key(id),
    {
        self.map.contains_key(&id)
    }

    /// How many calls are in flight.
    pub fn len(&self) -> (r: usize)
        ensures
            r == self@.dom().len(),
    {
        self.map.len()
    }
}

} // verus!
