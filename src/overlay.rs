//! Insertion-ordered maps that hold the locally written state.
use vstd::prelude::*;

use crate::felt::{ClassHash, ContractAddress, StorageKey};

verus! {

/// A key of the overlay, compared by value.
pub trait OverlayKey: Sized + Copy {
    fn same_key(&self, other: &Self) -> (r: bool)
        ensures
            r <==> *self == *other,
    ;
}

impl OverlayKey for ContractAddress {
    fn same_key(&self, other: &Self) -> (r: bool) {
        *self == *other
    }
}

impl OverlayKey for ClassHash {
    fn same_key(&self, other: &Self) -> (r: bool) {
        *self == *other
    }
}

/// One storage slot of one contract: its address and the key within it.
#[derive(Clone, Copy, Debug, PartialEq, Eq, Structural, Hash)]
pub struct StorageEntry(pub ContractAddress, pub StorageKey);

impl OverlayKey for StorageEntry {
    fn same_key(&self, other: &Self) -> (r: bool) {
        *self == *other
    }
}

/// The entries after an upsert: the entry of `k` is replaced in place, or
/// appended when `k` had none.
pub open spec fn upsert<K, V>(s: Seq<(K, V)>, k: K, v: V) -> Seq<(K, V)> {
    if exists|i: int| 0 <= i < s.len() && (#[trigger] s[i]).0 == k {
        s.map_values(|e: (K, V)| if e.0 == k { (k, v) } else { e })
    } else {
        s.push((k, v))
    }
}

/// Keys are unique among the entries, and the entries hold exactly the mapping.
spec fn parts_consistent<K, V>(entries: Seq<(K, V)>, model: Map<K, V>) -> bool {
    &&& forall|i: int, j: int|
        0 <= i < j < entries.len() ==> (#[trigger] entries[i]).0 != (#[trigger] entries[j]).0
    &&& forall|i: int|
        0 <= i < entries.len() ==> model.contains_key((#[trigger] entries[i]).0) && model[entries[i].0]
            == entries[i].1
    &&& forall|k: K|
        #[trigger] model.contains_key(k) ==> exists|i: int|
            0 <= i < entries.len() && (#[trigger] entries[i]).0 == k
}

/// A map that remembers the order in which its keys were first written.
#[verifier::reject_recursive_types(K)]
pub struct OverlayMap<K: OverlayKey, V> {
    entries: Vec<(K, V)>,
    model: Ghost<Map<K, V>>,
}

impl<K: OverlayKey, V> OverlayMap<K, V> {
    #[verifier::type_invariant]
    spec fn consistent(self) -> bool {
        parts_consistent(self.entries@, self.model@)
    }

    /// The key-value mapping.
    pub closed spec fn view(&self) -> Map<K, V> {
        self.model@
    }

    /// The entries, in the order in which their keys were first written.
    pub closed spec fn entries(&self) -> Seq<(K, V)> {
        self.entries@
    }

    /// The entries list each key of the map once, with its value, and no other key.
    pub open spec fn entries_match(&self) -> bool {
        &&& forall|i: int, j: int|
            0 <= i < j < self.entries().len() ==> (#[trigger] self.entries()[i]).0 != (
            #[trigger] self.entries()[j]).0
        &&& forall|i: int|
            0 <= i < self.entries().len() ==> self@.contains_key(
                (#[trigger] self.entries()[i]).0,
            ) && self@[self.entries()[i].0] == self.entries()[i].1
        &&& forall|k: K|
            #[trigger] self@.contains_key(k) ==> exists|i: int|
                0 <= i < self.entries().len() && (#[trigger] self.entries()[i]).0 == k
    }

    pub fn new() -> (r: Self)
        ensures
            r@ == Map::<K, V>::empty(),
            r.entries() == Seq::<(K, V)>::empty(),
    {
        OverlayMap { entries: Vec::new(), model: Ghost(Map::empty()) }
    }

    pub fn len(&self) -> (r: usize)
        ensures
            r == self.entries().len(),
            self.entries_match(),
    {
        proof {
            use_type_invariant(self);
        }
        self.entries.len()
    }

    /// The entry at position `i` in the order of first writes.
    pub fn entry_at(&self, i: usize) -> (r: &(K, V))
        requires
            i < self.entries().len(),
        ensures
            *r == self.entries()[i as int],
    {
        &self.entries[i]
    }

    fn index_of(&self, key: &K) -> (r: Option<usize>)
        ensures
            r matches Some(i) ==> i < self.entries@.len() && self.entries@[i as int].0 == *key,
            r is None ==> !self.model@.contains_key(*key),
    {
        let mut i: usize = 0;
        while i < self.entries.len()
            invariant
                i <= self.entries@.len(),
                forall|j: int| 0 <= j < i ==> (#[trigger] self.entries@[j]).0 != *key,
            decreases self.entries@.len() - i,
        {
            if self.entries[i].0.same_key(key) {
                return Some(i);
            }
            i = i + 1;
        }
        proof {
            use_type_invariant(self);
        }
        None
    }

    pub fn contains_key(&self, key: &K) -> (r: bool)
        ensures
            r == self@.contains_key(*key),
    {
        proof {
            use_type_invariant(self);
        }
        self.index_of(key).is_some()
    }

    pub fn get(&self, key: &K) -> (r: Option<&V>)
        ensures
            r == (if self@.contains_key(*key) {
                Some(&self@[*key])
            } else {
                None::<&V>
            }),
    {
        proof {
            use_type_invariant(self);
        }
        match self.index_of(key) {
            Some(i) => Some(&self.entries[i].1),
            None => None,
        }
    }

    /// Writes `value` under `key`; a key keeps the place of its first write.
    pub fn insert(&mut self, key: K, value: V)
        ensures
            final(self)@ == old(self)@.insert(key, value),
            final(self).entries() == upsert(old(self).entries(), key, value),
    {
        proof {
            use_type_invariant(&*self);
        }
        let found = self.index_of(&key);
        let mut current = OverlayMap::new();
        std::mem::swap(self, &mut current);
        proof {
            use_type_invariant(&current);
        }
        let OverlayMap { mut entries, model } = current;
        let ghost before = entries@;
        let ghost new_model = model@.insert(key, value);
        let ghost expected = upsert(before, key, value);
        match found {
            Some(i) => {
                entries[i] = (key, value);
                proof {
                    assert(exists|j: int| 0 <= j < before.len() && (#[trigger] before[j]).0 == key);
                    assert forall|j: int| 0 <= j < before.len() implies entries@[j] == expected[j] by {
                        if j != i {
                            assert(before[j].0 != key);
                        }
                    }
                    assert(entries@ =~= expected);
                }
            },
            None => {
                entries.push((key, value));
                proof {
                    if exists|j: int| 0 <= j < before.len() && (#[trigger] before[j]).0 == key {
                        let j = choose|j: int| 0 <= j < before.len() && (#[trigger] before[j]).0 == key;
                        assert(model@.contains_key(before[j].0));
                    }
                    assert(entries@ =~= expected);
                }
            },
        }
        proof {
            assert forall|j: int| 0 <= j < entries@.len() implies new_model.contains_key(
                (#[trigger] entries@[j]).0,
            ) && new_model[entries@[j].0] == entries@[j].1 by {
                if entries@[j].0 != key {
                    assert(entries@[j] == before[j]);
                }
            }
            assert forall|j1: int, j2: int| 0 <= j1 < j2 < entries@.len() implies (
            #[trigger] entries@[j1]).0 != (#[trigger] entries@[j2]).0 by {
                if j2 < before.len() {
                    assert(before[j1].0 != before[j2].0);
                    if before[j1].0 == key || before[j2].0 == key {
                        assert(found is Some);
                    }
                } else {
                    assert(before[j1].0 != key);
                }
            }
            assert forall|k: K| #[trigger] new_model.contains_key(k) implies exists|j: int|
                0 <= j < entries@.len() && (#[trigger] entries@[j]).0 == k by {
                if k == key {
                    match found {
                        Some(i) => { assert(entries@[i as int].0 == k); },
                        None => { assert(entries@[before.len() as int].0 == k); },
                    }
                } else {
                    let j = choose|j: int| 0 <= j < before.len() && (#[trigger] before[j]).0 == k;
                    assert(entries@[j].0 == k);
                }
            }
        }
        assert(parts_consistent(entries@, new_model));
        *self = OverlayMap { entries, model: Ghost(new_model) };
    }
}

} // verus!
