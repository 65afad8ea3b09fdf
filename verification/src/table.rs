//! The key-value table that backs the ledger's mappings.
//!
//! A table maps keys to amounts. Its contract is the one the ledger relies
//! on: a lookup of a key that was never written reads zero, and a write
//! replaces whatever was stored under the key.

use vstd::prelude::*;
use crate::account::AccountId;
use crate::totals::amount_at;

verus! {

/// A key of a [`Table`]: a plain value with a decidable equality.
pub trait Key: Sized {
    /// Decides whether two keys are the same key.
    fn same(&self, other: &Self) -> (same: bool)
        ensures
            same == (*self == *other),
    ;
}

impl Key for AccountId {
    fn same(&self, other: &Self) -> (same: bool) {
        *self == *other
    }
}

impl Key for (AccountId, AccountId) {
    fn same(&self, other: &Self) -> (same: bool) {
        self.0 == other.0 && self.1 == other.1
    }
}

/// A finite table from keys to amounts, with at most one entry per key.
pub struct Table<K: Key> {
    keys: Vec<K>,
    amounts: Vec<u128>,
}

impl<K: Key> View for Table<K> {
    type V = Map<K, u128>;

    /// The entries of the table as a mathematical map.
    closed spec fn view(&self) -> Map<K, u128> {
        Map::new(
            |key: K| self.keys@.contains(key),
            |key: K| self.amounts@[self.keys@.index_of(key)],
        )
    }
}

impl<K: Key> Table<K> {
    /// Every key is stored once, next to its amount.
    pub closed spec fn wf(&self) -> bool {
        &&& self.keys@.len() == self.amounts@.len()
        &&& self.keys@.no_duplicates()
    }

    /// A table holds finitely many entries.
    pub proof fn lemma_finite(&self)
        ensures
            self@.dom().finite(),
    {
        vstd::seq_lib::seq_to_set_is_finite(self.keys@);
        assert(self@.dom() =~= self.keys@.to_set());
    }

    /// An empty table.
    pub fn new() -> (table: Self)
        ensures
            table.wf(),
            table@ == Map::<K, u128>::empty(),
    {
        let table = Table { keys: Vec::new(), amounts: Vec::new() };
        assert(table@ =~= Map::<K, u128>::empty());
        table
    }

    /// The position at which `key` is stored, if it is stored.
    fn position(&self, key: &K) -> (found: Option<usize>)
        requires
            self.wf(),
        ensures
            match found {
                Some(i) => i < self.keys@.len() && self.keys@[i as int] == *key,
                None => !self.keys@.contains(*key),
            },
    {
        let mut i: usize = 0;
        while i < self.keys.len()
            invariant
                i <= self.keys@.len(),
                forall|j: int| 0 <= j < i ==> self.keys@[j] != *key,
            decreases self.keys@.len() - i,
        {
            if self.keys[i].same(key) {
                return Some(i);
            }
            i += 1;
        }
        None
    }

    /// The amount stored under `key`, or `None` when nothing is stored there.
    pub fn get(&self, key: &K) -> (stored: Option<u128>)
        requires
            self.wf(),
        ensures
            stored == (if self@.dom().contains(*key) {
                Some(self@[*key])
            } else {
                None
            }),
    {
        match self.position(key) {
            Some(i) => Some(self.amounts[i]),
            None => None,
        }
    }

    /// The amount stored under `key`, or zero when nothing is stored there.
    pub fn get_or_default(&self, key: &K) -> (amount: u128)
        requires
            self.wf(),
        ensures
            amount == amount_at(self@, *key),
    {
        match self.get(key) {
            Some(amount) => amount,
            None => 0,
        }
    }

    /// Stores `amount` under `key`, replacing what was stored there before.
    pub fn insert(&mut self, key: K, amount: u128)
        requires
            old(self).wf(),
        ensures
            final(self).wf(),
            final(self)@ == old(self)@.insert(key, amount),
    {
        let found = self.position(&key);
        match found {
            Some(i) => {
                self.amounts.set(i, amount);
            },
            None => {
                self.keys.push(key);
                self.amounts.push(amount);
            },
        }
        proof {
            let before = old(self)@;
            let keys = self.keys@;
            assert forall|k: K| self@.dom().contains(k) <==> before.insert(key, amount).dom().contains(
                k,
            ) by {
                if old(self).keys@.contains(k) {
                    let j = old(self).keys@.index_of(k);
                    assert(keys[j] == k);
                }
                if k == key {
                    match found {
                        Some(i) => assert(keys[i as int] == k),
                        None => assert(keys[keys.len() - 1] == k),
                    }
                }
            }
            assert forall|k: K| self@.dom().contains(k) implies self@[k] == before.insert(
                key,
                amount,
            )[k] by {
                let j = keys.index_of(k);
                assert(keys[j] == k);
                if k != key {
                    let i = old(self).keys@.index_of(k);
                    assert(keys[i] == k);
                }
            }
            assert(self@ =~= before.insert(key, amount));
        }
    }
}

} // verus!
