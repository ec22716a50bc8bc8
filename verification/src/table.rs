//! A table keyed by a pair of 64-bit identifiers.
//!
//! The pair is packed into one 128-bit key, so that the standard hash map can
//! hold it; callers only ever see the pair.

use std::collections::HashMap;
use vstd::prelude::*;

verus! {

broadcast use vstd::std_specs::hash::group_hash_axioms;

/// The 128-bit key that stands for the pair `(first, second)`.
pub open spec fn packed(first: u64, second: u64) -> u128 {
    (first as u128 * 0x1_0000_0000_0000_0000u128 + second as u128) as u128
}

/// Different pairs have different keys.
pub proof fn lemma_packed_is_injective(a: (u64, u64), b: (u64, u64))
    ensures
        packed(a.0, a.1) == packed(b.0, b.1) <==> a == b,
{
}

fn pack(first: u64, second: u64) -> (key: u128)
    ensures
        key == packed(first, second),
{
    first as u128 * 0x1_0000_0000_0000_0000u128 + second as u128
}

/// A finite map from pairs of identifiers to values.
pub struct PairTable<V> {
    slots: HashMap<u128, V>,
}

impl<V> View for PairTable<V> {
    type V = Map<(u64, u64), V>;

    closed spec fn view(&self) -> Map<(u64, u64), V> {
        Map::new(
            |k: (u64, u64)| self.slots@.contains_key(packed(k.0, k.1)),
            |k: (u64, u64)| self.slots@[packed(k.0, k.1)],
        )
    }
}

impl<V> PairTable<V> {
    /// The empty table.
    pub fn new() -> (table: Self)
        ensures
            table@ == Map::<(u64, u64), V>::empty(),
    {
        PairTable { slots: HashMap::new() }
    }

    /// The value stored under `(first, second)`, if there is one.
    pub fn get(&self, first: u64, second: u64) -> (found: Option<&V>)
        ensures
            match found {
                Some(v) => self@.contains_key((first, second)) && *v == self@[(first, second)],
                None => !self@.contains_key((first, second)),
            },
    {
        let key = pack(first, second);
        self.slots.get(&key)
    }

    /// Stores `value` under `(first, second)`, replacing what was there.
    pub fn insert(&mut self, first: u64, second: u64, value: V)
        ensures
            final(self)@ == old(self)@.insert((first, second), value),
    {
        let key = pack(first, second);
        self.slots.insert(key, value);
        proof {
            assert forall|k: (u64, u64)| packed(k.0, k.1) == key implies k == (first, second) by {
                lemma_packed_is_injective(k, (first, second));
            }
        }
    }

    /// Removes whatever is stored under `(first, second)`.
    pub fn remove(&mut self, first: u64, second: u64)
        ensures
            final(self)@ == old(self)@.remove((first, second)),
    {
        let key = pack(first, second);
        self.slots.remove(&key);
        proof {
            assert forall|k: (u64, u64)| packed(k.0, k.1) == key implies k == (first, second) by {
                lemma_packed_is_injective(k, (first, second));
            }
        }
    }
}

} // verus!
