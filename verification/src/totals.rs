//! Sums over finite maps of amounts.
//!
//! The conservation of value is a statement about the sum of all stored
//! balances. This module defines that sum on the mathematical map that models
//! a table, and proves how it changes when one entry is written.

use vstd::prelude::*;

verus! {

/// The amount that a lookup of `key` reads from `entries`: the stored amount,
/// or zero when nothing is stored under `key`.
pub open spec fn amount_at<K>(entries: Map<K, u128>, key: K) -> u128 {
    if entries.dom().contains(key) {
        entries[key]
    } else {
        0
    }
}

/// The sum of all amounts stored in `entries`, for a finite map.
pub open spec fn total<K>(entries: Map<K, u128>) -> nat
    decreases entries.dom().len(),
    when entries.dom().finite()
{
    if entries.dom().len() == 0 {
        0
    } else {
        let key = entries.dom().choose();
        entries[key] as nat + total(entries.remove(key))
    }
}

/// The empty map sums to zero.
pub proof fn lemma_total_empty<K>()
    ensures
        total(Map::<K, u128>::empty()) == 0,
{
}

/// Any stored entry can be split off the sum, not only the one that the
/// definition happens to pick first.
pub proof fn lemma_total_remove<K>(entries: Map<K, u128>, key: K)
    requires
        entries.dom().finite(),
        entries.dom().contains(key),
    ensures
        total(entries) == entries[key] + total(entries.remove(key)),
    decreases entries.dom().len(),
{
    let first = entries.dom().choose();
    if first != key {
        lemma_total_remove(entries.remove(first), key);
        lemma_total_remove(entries.remove(key), first);
        assert(entries.remove(first).remove(key) =~= entries.remove(key).remove(first));
    }
}

/// Writing `amount` under `key` replaces what was read there before, and
/// nothing else, in the sum.
pub proof fn lemma_total_insert<K>(entries: Map<K, u128>, key: K, amount: u128)
    requires
        entries.dom().finite(),
    ensures
        total(entries.insert(key, amount)) + amount_at(entries, key) == total(entries) + amount,
{
    let written = entries.insert(key, amount);
    lemma_total_remove(written, key);
    assert(written.remove(key) =~= entries.remove(key));
    if entries.dom().contains(key) {
        lemma_total_remove(entries, key);
    } else {
        assert(entries.remove(key) =~= entries);
    }
}

/// No single amount exceeds the sum.
pub proof fn lemma_amount_le_total<K>(entries: Map<K, u128>, key: K)
    requires
        entries.dom().finite(),
    ensures
        amount_at(entries, key) <= total(entries),
{
    if entries.dom().contains(key) {
        lemma_total_remove(entries, key);
    }
}

} // verus!
