//! A table from keys to amounts in which a key that was never written holds
//! zero.

use crate::primitives::{Address, U256};
use vstd::prelude::*;

verus! {

/// A key of a [`Table`]: a value that can be compared for equality at run time.
pub(crate) trait Key: Sized {
    /// Whether two keys are equal.
    fn same(&self, other: &Self) -> (same: bool)
        ensures
            same == (*self == *other),
    ;
}

impl Key for Address {
    fn same(&self, other: &Address) -> (same: bool) {
        *self == *other
    }
}

impl Key for (Address, Address) {
    fn same(&self, other: &(Address, Address)) -> (same: bool) {
        self.0 == other.0 && self.1 == other.1
    }
}

/// A table from keys to amounts. Every key has an amount; it is zero until
/// the key is first written. Entries are never removed, and the first entry
/// of a key is the one that counts.
pub(crate) struct Table<K> {
    entries: Vec<(K, U256)>,
}

impl<K: Key> Table<K> {
    /// Whether the entry at `i` is the first entry of `key`.
    spec fn first_at(&self, key: K, i: int) -> bool {
        &&& 0 <= i < self.entries@.len()
        &&& self.entries@[i].0 == key
        &&& forall|j: int| 0 <= j < i ==> self.entries@[j].0 != key
    }

    /// The amount held at `key`.
    pub(crate) closed spec fn amount(&self, key: K) -> nat {
        if exists|i: int| self.first_at(key, i) {
            self.entries@[choose|i: int| self.first_at(key, i)].1@
        } else {
            0
        }
    }

    /// The table as a map that holds an amount at every key.
    pub(crate) open spec fn view(&self) -> Map<K, nat> {
        Map::total(|key: K| self.amount(key))
    }

    /// A key has at most one first entry.
    proof fn lemma_first_unique(&self, key: K, i: int, j: int)
        requires
            self.first_at(key, i),
            self.first_at(key, j),
        ensures
            i == j,
    {
    }

    /// The table in which every key holds zero.
    pub(crate) fn new() -> (table: Table<K>)
        ensures
            table@ == Map::total(|key: K| 0nat),
    {
        let table = Table { entries: Vec::new() };
        assert(table@ =~= Map::total(|key: K| 0nat));
        table
    }

    /// The position of the first entry of `key`, if it has one.
    fn find(&self, key: &K) -> (found: Option<usize>)
        ensures
            (match found {
                Some(i) => self.first_at(*key, i as int),
                None => forall|i: int| 0 <= i < self.entries@.len() ==> self.entries@[i].0 != *key,
            }),
    {
        let mut i: usize = 0;
        while i < self.entries.len()
            invariant
                i <= self.entries@.len(),
                forall|j: int| 0 <= j < i ==> self.entries@[j].0 != *key,
            decreases self.entries@.len() - i,
        {
            if self.entries[i].0.same(key) {
                return Some(i);
            }
            i += 1;
        }
        None
    }

    /// The amount held at `key`.
    pub(crate) fn get(&self, key: &K) -> (amount: U256)
        ensures
            amount@ == self@[*key],
    {
        match self.find(key) {
            Some(i) => {
                proof {
                    self.lemma_first_unique(
                        *key,
                        i as int,
                        choose|j: int| self.first_at(*key, j),
                    );
                }
                self.entries[i].1
            },
            None => U256::zero(),
        }
    }

    /// Writes `amount` at `key`, leaving every other key as it was.
    pub(crate) fn set(&mut self, key: K, amount: U256)
        ensures
            final(self)@ == old(self)@.insert(key, amount@),
    {
        let ghost before = *self;
        let ghost slot: int;
        match self.find(&key) {
            Some(i) => {
                self.entries[i].1 = amount;
                proof {
                    slot = i as int;
                }
            },
            None => {
                self.entries.push((key, amount));
                proof {
                    slot = self.entries@.len() - 1;
                }
            },
        }
        assert forall|j: int| 0 <= j < before.entries@.len() implies self.entries@[j].0
            == before.entries@[j].0 && (j != slot ==> self.entries@[j] == before.entries@[j]) by {}
        assert(self.first_at(key, slot)) by {
            assert forall|j: int| 0 <= j < slot implies self.entries@[j].0 != key by {
                assert(before.entries@[j].0 != key);
            }
        }
        assert forall|other: K| self.amount(other) == before@.insert(key, amount@)[other] by {
            if other == key {
                self.lemma_first_unique(key, slot, choose|j: int| self.first_at(key, j));
            } else {
                assert forall|j: int| self.first_at(other, j) == before.first_at(other, j) by {
                    if 0 <= j < before.entries@.len() {
                        assert(self.entries@[j].0 == before.entries@[j].0);
                    }
                }
                if exists|j: int| self.first_at(other, j) {
                    let j = choose|j: int| self.first_at(other, j);
                    before.lemma_first_unique(other, j, choose|j: int| before.first_at(other, j));
                }
            }
        }
        assert(self@ =~= before@.insert(key, amount@));
    }
}

} // verus!
