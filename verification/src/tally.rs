//! The total of a weight over a finite set of keys.

use vstd::prelude::*;

verus! {

/// The sum of `weight` over `keys`.
pub open spec fn total<K>(keys: Set<K>, weight: spec_fn(K) -> nat) -> nat {
    keys.fold(0nat, |sum: nat, key: K| sum + weight(key))
}

/// Nothing adds up to nothing.
pub proof fn lemma_total_of_none<K>(weight: spec_fn(K) -> nat)
    ensures
        total(Set::<K>::empty(), weight) == 0,
{
    vstd::set::fold::lemma_fold_empty(0nat, |sum: nat, key: K| sum + weight(key));
}

/// A key that joins the set adds its weight to the total.
pub proof fn lemma_total_with<K>(keys: Set<K>, weight: spec_fn(K) -> nat, key: K)
    requires
        keys.finite(),
        !keys.contains(key),
    ensures
        total(keys.insert(key), weight) == total(keys, weight) + weight(key),
{
    vstd::set::fold::lemma_fold_insert(keys, 0nat, |sum: nat, key: K| sum + weight(key), key);
}

/// A key that leaves the set takes its weight from the total.
pub proof fn lemma_total_without<K>(keys: Set<K>, weight: spec_fn(K) -> nat, key: K)
    requires
        keys.finite(),
        keys.contains(key),
    ensures
        total(keys, weight) == total(keys.remove(key), weight) + weight(key),
{
    assert(keys.remove(key).insert(key) =~= keys);
    lemma_total_with(keys.remove(key), weight, key);
}

/// The total depends on the weights of the keys in the set alone.
pub proof fn lemma_total_of_equal_weights<K>(
    keys: Set<K>,
    weight: spec_fn(K) -> nat,
    other: spec_fn(K) -> nat,
)
    requires
        keys.finite(),
        forall|key: K| keys.contains(key) ==> #[trigger] weight(key) == other(key),
    ensures
        total(keys, weight) == total(keys, other),
    decreases keys.len(),
{
    if keys.len() == 0 {
        assert(keys =~= Set::<K>::empty());
        lemma_total_of_none(weight);
        lemma_total_of_none(other);
    } else {
        let key = keys.choose();
        lemma_total_without(keys, weight, key);
        lemma_total_without(keys, other, key);
        lemma_total_of_equal_weights(keys.remove(key), weight, other);
    }
}

/// Where every key in the set weighs nothing, so does the set.
pub proof fn lemma_total_of_zeros<K>(keys: Set<K>, weight: spec_fn(K) -> nat)
    requires
        keys.finite(),
        forall|key: K| keys.contains(key) ==> #[trigger] weight(key) == 0,
    ensures
        total(keys, weight) == 0,
    decreases keys.len(),
{
    if keys.len() == 0 {
        assert(keys =~= Set::<K>::empty());
        lemma_total_of_none(weight);
    } else {
        let key = keys.choose();
        lemma_total_without(keys, weight, key);
        lemma_total_of_zeros(keys.remove(key), weight);
    }
}

} // verus!
