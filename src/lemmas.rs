//! Laws of the layered state, stated over the lookups that the reads return.
use vstd::prelude::*;

use crate::felt::{zero_felt, ClassHash, CompiledClassHash, ContractAddress, Felt, Nonce, StorageKey};
use crate::overlay::StorageEntry;
use crate::state::{value_or_zero, DictState, Lookup, StateError};

verus! {

/// Whatever the fork, a key that the overlay holds reads as its local value,
/// for every kind of read.
pub proof fn lemma_overlay_precedence<C>(s: DictState<C>, address: ContractAddress, key: StorageKey, class_hash: ClassHash)
    ensures
        s.storage_view@.contains_key(StorageEntry(address, key)) ==> s.storage_lookup(address, key)
            == Lookup::Resolved(s.storage_view@[StorageEntry(address, key)]),
        s.address_to_nonce@.contains_key(address) ==> s.nonce_lookup(address)
            == Lookup::Resolved(s.address_to_nonce@[address]),
        s.address_to_class_hash@.contains_key(address) ==> s.class_hash_lookup(address)
            == Lookup::Resolved(s.address_to_class_hash@[address]),
        s.class_hash_to_class@.contains_key(class_hash) ==> s.class_lookup(class_hash)
            == Ok::<Lookup<C>, StateError>(Lookup::Resolved(s.class_hash_to_class@[class_hash])),
        s.class_hash_to_compiled_class_hash@.contains_key(class_hash) ==> s.compiled_class_hash_lookup(class_hash)
            == Ok::<CompiledClassHash, StateError>(s.class_hash_to_compiled_class_hash@[class_hash]),
{
}

/// Starting from nonce zero, each successful increment adds exactly one: after
/// `n` of them the nonce reads as `n`.
pub proof fn lemma_nonce_counts<C>(states: Seq<DictState<C>>, address: ContractAddress)
    requires
        states.len() >= 1,
        states[0].nonce_lookup(address) == Lookup::Resolved(Nonce(zero_felt())),
        forall|i: int| 0 <= i < states.len() - 1 ==> #[trigger] states[i].nonce_incremented(states[i + 1], address),
    ensures
        states.len() - 1 <= u64::MAX,
        states.last().nonce_lookup(address) == Lookup::Resolved(Nonce(Felt { high: 0, low: (states.len() - 1) as u128 })),
        states.last().nonce_lookup(address) matches Lookup::Resolved(n) && n.0.value() == states.len() - 1,
    decreases states.len(),
{
    if states.len() > 1 {
        let prefix = states.drop_last();
        assert forall|i: int| 0 <= i < prefix.len() - 1 implies #[trigger] prefix[i].nonce_incremented(prefix[i + 1], address) by {
            assert(prefix[i] == states[i] && prefix[i + 1] == states[i + 1]);
            assert(states[i].nonce_incremented(states[i + 1], address));
        }
        lemma_nonce_counts(prefix, address);
        let k = states.len() - 2;
        assert(states[k].nonce_incremented(states[k + 1], address));
    }
}

/// With no fork, a key that was never written reads as its default: zero for
/// storage, nonces and deployed class hashes, and "not declared" for classes
/// and compiled class hashes.
pub proof fn lemma_closed_state_defaults<C>(s: DictState<C>, address: ContractAddress, key: StorageKey, class_hash: ClassHash)
    requires
        s.fork is None,
    ensures
        !s.storage_view@.contains_key(StorageEntry(address, key)) ==> s.storage_lookup(address, key)
            == Lookup::Resolved(zero_felt()),
        !s.address_to_nonce@.contains_key(address) ==> s.nonce_lookup(address)
            == Lookup::Resolved(Nonce(zero_felt())),
        !s.address_to_class_hash@.contains_key(address) ==> s.class_hash_lookup(address)
            == Lookup::Resolved(ClassHash(zero_felt())),
        !s.class_hash_to_class@.contains_key(class_hash) ==> s.class_lookup(class_hash)
            == Err::<Lookup<C>, StateError>(StateError::UndeclaredClassHash(class_hash)),
        !s.class_hash_to_compiled_class_hash@.contains_key(class_hash) ==> s.compiled_class_hash_lookup(class_hash)
            == Err::<CompiledClassHash, StateError>(StateError::UndeclaredClassHash(class_hash)),
{
}

/// On a forked state, a slot that was never written is asked of the origin at
/// the pinned block, and reads as the origin's value `v`; once `w` is written
/// there, it reads as `w`.
pub proof fn lemma_fork_fallback<C>(
    s: DictState<C>,
    t: DictState<C>,
    address: ContractAddress,
    key: StorageKey,
    v: Felt,
    w: Felt,
)
    requires
        s.fork is Some,
        !s.storage_view@.contains_key(StorageEntry(address, key)),
        t.storage_view@ == s.storage_view@.insert(StorageEntry(address, key), w),
    ensures
        s.storage_lookup(address, key) == Lookup::<Felt>::AskOrigin(s.fork.unwrap().block),
        value_or_zero(Ok(v)) == v,
        t.storage_lookup(address, key) == Lookup::Resolved(w),
{
}

} // verus!
