//! Enumeration of the overlay into a state diff.
use vstd::prelude::*;

use crate::felt::{ClassHash, CompiledClassHash, ContractAddress, Felt, Nonce};
use crate::overlay::{OverlayKey, OverlayMap, StorageEntry};

verus! {

/// Every change that the overlay holds, each mapping in the order in which its
/// keys were first written.
pub struct StateDiff {
    pub storage_updates: Vec<(StorageEntry, Felt)>,
    pub address_to_nonce: Vec<(ContractAddress, Nonce)>,
    pub address_to_class_hash: Vec<(ContractAddress, ClassHash)>,
    pub declared_classes: Vec<ClassHash>,
    pub class_hash_to_compiled_class_hash: Vec<(ClassHash, CompiledClassHash)>,
}

/// The keys of a sequence of entries, in order.
pub open spec fn keys_of<K, V>(entries: Seq<(K, V)>) -> Seq<K> {
    entries.map_values(|e: (K, V)| e.0)
}

/// Copies the entries of `m`, in order.
pub(crate) fn copy_entries<K: OverlayKey, V: Copy>(m: &OverlayMap<K, V>) -> (r: Vec<(K, V)>)
    ensures
        r@ == m.entries(),
        m.entries_match(),
{
    let n = m.len();
    let mut out: Vec<(K, V)> = Vec::new();
    let mut i: usize = 0;
    while i < n
        invariant
            n == m.entries().len(),
            i <= n,
            out@ == m.entries().subrange(0, i as int),
        decreases n - i,
    {
        out.push(*m.entry_at(i));
        i = i + 1;
        proof {
            assert(out@ =~= m.entries().subrange(0, i as int));
        }
    }
    proof {
        assert(out@ =~= m.entries());
    }
    out
}

/// The keys of `m`, in the order in which they were first written.
pub(crate) fn keys_in_order<K: OverlayKey, V>(m: &OverlayMap<K, V>) -> (r: Vec<K>)
    ensures
        r@ == keys_of(m.entries()),
        m.entries_match(),
{
    let n = m.len();
    let mut out: Vec<K> = Vec::new();
    let mut i: usize = 0;
    while i < n
        invariant
            n == m.entries().len(),
            i <= n,
            out@.len() == i,
            forall|j: int| 0 <= j < i ==> out@[j] == (#[trigger] m.entries()[j]).0,
        decreases n - i,
    {
        out.push(m.entry_at(i).0);
        i = i + 1;
    }
    proof {
        assert(out@ =~= keys_of(m.entries()));
    }
    out
}

} // verus!
