//! The layered state: reads resolve in the overlay first and fall back to a
//! forked origin; writes touch the overlay only.
use vstd::prelude::*;

use crate::felt::{
    zero_felt, ClassHash, CompiledClassHash, ContractAddress, Felt, Nonce, StorageKey,
};
use crate::diff::{copy_entries, keys_in_order, keys_of, StateDiff};
use crate::overlay::{upsert, OverlayMap, StorageEntry};

verus! {

/// Where a node forks from: an endpoint, and the block it is pinned to.
pub struct ForkConfig {
    pub url: Option<String>,
    pub block: Option<u64>,
}

/// The remote network that a forked state falls back to.
pub struct ForkOrigin {
    pub url: String,
    pub block: u64,
}

/// Outcome of a read against the layered state.
#[derive(Debug, PartialEq, Eq)]
pub enum Lookup<T> {
    /// Answered by the overlay, or by the defaults of a state with no fork.
    Resolved(T),
    /// The overlay has no entry and the state is forked: the origin is to be
    /// asked at this block.
    AskOrigin(u64),
}

/// Why the origin gave no answer.
#[derive(Clone, Copy, Debug, PartialEq, Eq, Structural)]
pub enum OriginError {
    /// The request failed, or the origin does not know the item.
    Unavailable,
    /// A class came back that could not be turned into a local class.
    ClassConversion,
}

/// Failures that reads and writes report to their caller.
#[derive(Clone, Copy, Debug, PartialEq, Eq, Structural)]
pub enum StateError {
    /// No class is declared under this hash.
    UndeclaredClassHash(ClassHash),
    /// A class cannot be deployed at the zero address.
    OutOfRangeContractAddress,
    /// The nonce does not fit, or would no longer fit, an unsigned 64-bit counter.
    NonceOutOfRange,
    /// The origin's class under this hash could not be converted.
    ClassConversion(ClassHash),
}

/// The overlay's value for `k`, or else the origin's block to ask, or else `default`.
pub open spec fn resolve<K, T>(local: Map<K, T>, k: K, fork: Option<ForkOrigin>, default: T) -> Lookup<T> {
    if local.contains_key(k) {
        Lookup::Resolved(local[k])
    } else {
        match fork {
            Some(f) => Lookup::AskOrigin(f.block),
            None => Lookup::Resolved(default),
        }
    }
}

/// What the origin answered, with zero standing for any failure.
pub open spec fn value_or_zero(answer: Result<Felt, OriginError>) -> Felt {
    match answer {
        Ok(v) => v,
        Err(_) => zero_felt(),
    }
}

/// The class that the origin answered, or the error that its failure means.
pub open spec fn class_or_error<C>(class_hash: ClassHash, answer: Result<C, OriginError>) -> Result<C, StateError> {
    match answer {
        Ok(c) => Ok(c),
        Err(OriginError::Unavailable) => Err(StateError::UndeclaredClassHash(class_hash)),
        Err(OriginError::ClassConversion) => Err(StateError::ClassConversion(class_hash)),
    }
}

/// The nonce after `n`, while it stays within an unsigned 64-bit counter.
pub open spec fn nonce_after(n: Nonce) -> Option<Nonce> {
    if n.0.value() < u64::MAX {
        Some(Nonce(Felt { high: 0, low: (n.0.value() + 1) as u128 }))
    } else {
        None
    }
}

/// Locally written state over an optional forked origin.
pub struct DictState<C> {
    pub storage_view: OverlayMap<StorageEntry, Felt>,
    pub address_to_nonce: OverlayMap<ContractAddress, Nonce>,
    pub address_to_class_hash: OverlayMap<ContractAddress, ClassHash>,
    pub class_hash_to_class: OverlayMap<ClassHash, C>,
    pub class_hash_to_compiled_class_hash: OverlayMap<ClassHash, CompiledClassHash>,
    /// Program counters that execution visited, per class, in the order recorded.
    pub visited_pcs: Vec<(ClassHash, usize)>,
    pub fork: Option<ForkOrigin>,
}

impl<C> DictState<C> {
    pub open spec fn storage_lookup(&self, address: ContractAddress, key: StorageKey) -> Lookup<Felt> {
        resolve(self.storage_view@, StorageEntry(address, key), self.fork, zero_felt())
    }

    pub open spec fn nonce_lookup(&self, address: ContractAddress) -> Lookup<Nonce> {
        resolve(self.address_to_nonce@, address, self.fork, Nonce(zero_felt()))
    }

    pub open spec fn class_hash_lookup(&self, address: ContractAddress) -> Lookup<ClassHash> {
        resolve(self.address_to_class_hash@, address, self.fork, ClassHash(zero_felt()))
    }

    pub open spec fn class_lookup(&self, class_hash: ClassHash) -> Result<Lookup<C>, StateError> {
        if self.class_hash_to_class@.contains_key(class_hash) {
            Ok(Lookup::Resolved(self.class_hash_to_class@[class_hash]))
        } else {
            match self.fork {
                Some(f) => Ok(Lookup::AskOrigin(f.block)),
                None => Err(StateError::UndeclaredClassHash(class_hash)),
            }
        }
    }

    /// The origin cannot be asked for a compiled class hash: a forked state
    /// answers zero where the overlay has none.
    pub open spec fn compiled_class_hash_lookup(&self, class_hash: ClassHash) -> Result<CompiledClassHash, StateError> {
        if self.class_hash_to_compiled_class_hash@.contains_key(class_hash) {
            Ok(self.class_hash_to_compiled_class_hash@[class_hash])
        } else if self.fork is Some {
            Ok(CompiledClassHash(zero_felt()))
        } else {
            Err(StateError::UndeclaredClassHash(class_hash))
        }
    }

    /// The nonce that an increment starts from, given the origin's answer
    /// where the overlay has none.
    pub open spec fn nonce_with_origin(&self, address: ContractAddress, answer: Result<Felt, OriginError>) -> Nonce {
        match self.nonce_lookup(address) {
            Lookup::Resolved(n) => n,
            Lookup::AskOrigin(_) => Nonce(value_or_zero(answer)),
        }
    }

    /// `next` is this state with nonce `n` written for `address`, and nothing else changed.
    pub open spec fn nonce_written(&self, next: Self, address: ContractAddress, n: Nonce) -> bool {
        &&& next.address_to_nonce@ == self.address_to_nonce@.insert(address, n)
        &&& next.address_to_nonce.entries() == upsert(self.address_to_nonce.entries(), address, n)
        &&& next == (DictState { address_to_nonce: next.address_to_nonce, ..*self })
    }

    /// `next` is this state after a successful local increment of the nonce of `address`.
    pub open spec fn nonce_incremented(&self, next: Self, address: ContractAddress) -> bool {
        match self.nonce_lookup(address) {
            Lookup::Resolved(current) => match nonce_after(current) {
                Some(n) => self.nonce_written(next, address, n),
                None => false,
            },
            Lookup::AskOrigin(_) => false,
        }
    }

    pub fn new(fork_config: ForkConfig) -> (r: Self)
        requires
            fork_config.url is Some ==> fork_config.block is Some,
        ensures
            r.storage_view@ == Map::<StorageEntry, Felt>::empty(),
            r.address_to_nonce@ == Map::<ContractAddress, Nonce>::empty(),
            r.address_to_class_hash@ == Map::<ContractAddress, ClassHash>::empty(),
            r.class_hash_to_class@ == Map::<ClassHash, C>::empty(),
            r.class_hash_to_compiled_class_hash@ == Map::<ClassHash, CompiledClassHash>::empty(),
            r.storage_view.entries().len() == 0,
            r.address_to_nonce.entries().len() == 0,
            r.address_to_class_hash.entries().len() == 0,
            r.class_hash_to_class.entries().len() == 0,
            r.class_hash_to_compiled_class_hash.entries().len() == 0,
            r.visited_pcs@.len() == 0,
            r.fork == (match fork_config.url {
                Some(url) => Some(ForkOrigin { url, block: fork_config.block.unwrap() }),
                None => None,
            }),
    {
        let fork = match fork_config.url {
            Some(url) => Some(ForkOrigin { url, block: fork_config.block.unwrap() }),
            None => None,
        };
        DictState {
            storage_view: OverlayMap::new(),
            address_to_nonce: OverlayMap::new(),
            address_to_class_hash: OverlayMap::new(),
            class_hash_to_class: OverlayMap::new(),
            class_hash_to_compiled_class_hash: OverlayMap::new(),
            visited_pcs: Vec::new(),
            fork,
        }
    }

    fn fork_block(&self) -> (r: Option<u64>)
        ensures
            r == (match self.fork {
                Some(f) => Some(f.block),
                None => None::<u64>,
            }),
    {
        match &self.fork {
            Some(f) => Some(f.block),
            None => None,
        }
    }

    pub fn get_storage_at(&self, contract_address: ContractAddress, key: StorageKey) -> (r: Lookup<Felt>)
        ensures
            r == self.storage_lookup(contract_address, key),
    {
        match self.storage_view.get(&StorageEntry(contract_address, key)) {
            Some(value) => Lookup::Resolved(*value),
            None => match self.fork_block() {
                Some(block) => Lookup::AskOrigin(block),
                None => Lookup::Resolved(Felt::zero()),
            },
        }
    }

    pub fn get_nonce_at(&self, contract_address: ContractAddress) -> (r: Lookup<Nonce>)
        ensures
            r == self.nonce_lookup(contract_address),
    {
        match self.address_to_nonce.get(&contract_address) {
            Some(value) => Lookup::Resolved(*value),
            None => match self.fork_block() {
                Some(block) => Lookup::AskOrigin(block),
                None => Lookup::Resolved(Nonce(Felt::zero())),
            },
        }
    }

    pub fn get_class_hash_at(&self, contract_address: ContractAddress) -> (r: Lookup<ClassHash>)
        ensures
            r == self.class_hash_lookup(contract_address),
    {
        match self.address_to_class_hash.get(&contract_address) {
            Some(class_hash) => Lookup::Resolved(*class_hash),
            None => match self.fork_block() {
                Some(block) => Lookup::AskOrigin(block),
                None => Lookup::Resolved(ClassHash(Felt::zero())),
            },
        }
    }

    /// The class declared under `class_hash`, borrowed from the overlay.
    pub fn get_compiled_contract_class(&self, class_hash: ClassHash) -> (r: Result<Lookup<&C>, StateError>)
        ensures
            match self.class_lookup(class_hash) {
                Ok(Lookup::Resolved(c)) => r matches Ok(Lookup::Resolved(x)) && *x == c,
                Ok(Lookup::AskOrigin(b)) => r == Ok::<Lookup<&C>, StateError>(Lookup::AskOrigin(b)),
                Err(e) => r == Err::<Lookup<&C>, StateError>(e),
            },
    {
        match self.class_hash_to_class.get(&class_hash) {
            Some(contract_class) => Ok(Lookup::Resolved(contract_class)),
            None => match self.fork_block() {
                Some(block) => Ok(Lookup::AskOrigin(block)),
                None => Err(StateError::UndeclaredClassHash(class_hash)),
            },
        }
    }

    pub fn get_compiled_class_hash(&self, class_hash: ClassHash) -> (r: Result<CompiledClassHash, StateError>)
        ensures
            r == self.compiled_class_hash_lookup(class_hash),
    {
        match self.class_hash_to_compiled_class_hash.get(&class_hash) {
            Some(compiled) => Ok(*compiled),
            None => match self.fork {
                Some(_) => Ok(CompiledClassHash(Felt::zero())),
                None => Err(StateError::UndeclaredClassHash(class_hash)),
            },
        }
    }

    pub fn set_storage_at(&mut self, contract_address: ContractAddress, key: StorageKey, value: Felt) -> (r: Result<(), StateError>)
        ensures
            r is Ok,
            final(self).storage_view@ == old(self).storage_view@.insert(StorageEntry(contract_address, key), value),
            final(self).storage_view.entries() == upsert(old(self).storage_view.entries(), StorageEntry(contract_address, key), value),
            *final(self) == (DictState { storage_view: final(self).storage_view, ..*old(self) }),
    {
        self.storage_view.insert(StorageEntry(contract_address, key), value);
        Ok(())
    }

    /// Writes `nonce` for `contract_address`.
    fn write_nonce(&mut self, contract_address: ContractAddress, nonce: Nonce)
        ensures
            old(self).nonce_written(*final(self), contract_address, nonce),
    {
        self.address_to_nonce.insert(contract_address, nonce);
    }

    /// Adds one to the nonce of `contract_address`. Where the overlay has no
    /// nonce for it and the state is forked, nothing changes and the origin is
    /// to be asked; `increment_nonce_with_origin` then completes the increment.
    pub fn increment_nonce(&mut self, contract_address: ContractAddress) -> (r: Result<Lookup<()>, StateError>)
        ensures
            match old(self).nonce_lookup(contract_address) {
                Lookup::Resolved(current) => match nonce_after(current) {
                    Some(n) => r == Ok::<Lookup<()>, StateError>(Lookup::Resolved(()))
                        && old(self).nonce_written(*final(self), contract_address, n)
                        && old(self).nonce_incremented(*final(self), contract_address),
                    None => r == Err::<Lookup<()>, StateError>(StateError::NonceOutOfRange)
                        && *final(self) == *old(self),
                },
                Lookup::AskOrigin(b) => r == Ok::<Lookup<()>, StateError>(Lookup::AskOrigin(b))
                    && *final(self) == *old(self),
            },
    {
        match self.get_nonce_at(contract_address) {
            Lookup::Resolved(current) => {
                let next = next_nonce(current)?;
                self.write_nonce(contract_address, next);
                Ok(Lookup::Resolved(()))
            },
            Lookup::AskOrigin(block) => Ok(Lookup::AskOrigin(block)),
        }
    }

    /// Adds one to the nonce of `contract_address`, starting from the origin's
    /// `answer` where the overlay has no nonce for it and the state is forked.
    pub fn increment_nonce_with_origin(&mut self, contract_address: ContractAddress, answer: Result<Felt, OriginError>) -> (r: Result<(), StateError>)
        ensures
            match nonce_after(old(self).nonce_with_origin(contract_address, answer)) {
                Some(n) => r is Ok && old(self).nonce_written(*final(self), contract_address, n),
                None => r == Err::<(), StateError>(StateError::NonceOutOfRange) && *final(self) == *old(self),
            },
    {
        let current = match self.get_nonce_at(contract_address) {
            Lookup::Resolved(current) => current,
            Lookup::AskOrigin(_) => nonce_from_origin(answer),
        };
        let next = next_nonce(current)?;
        self.write_nonce(contract_address, next);
        Ok(())
    }

    /// Deploys `class_hash` at `contract_address`; the zero address is refused.
    pub fn set_class_hash_at(&mut self, contract_address: ContractAddress, class_hash: ClassHash) -> (r: Result<(), StateError>)
        ensures
            contract_address.0.value() == 0 ==> r == Err::<(), StateError>(StateError::OutOfRangeContractAddress)
                && *final(self) == *old(self),
            contract_address.0.value() != 0 ==> r is Ok
                && final(self).address_to_class_hash@ == old(self).address_to_class_hash@.insert(contract_address, class_hash)
                && final(self).address_to_class_hash.entries() == upsert(old(self).address_to_class_hash.entries(), contract_address, class_hash)
                && *final(self) == (DictState { address_to_class_hash: final(self).address_to_class_hash, ..*old(self) }),
    {
        if contract_address.0.is_zero() {
            return Err(StateError::OutOfRangeContractAddress);
        }
        self.address_to_class_hash.insert(contract_address, class_hash);
        Ok(())
    }

    /// Declares `contract_class` under `class_hash`.
    pub fn set_contract_class(&mut self, class_hash: ClassHash, contract_class: C) -> (r: Result<(), StateError>)
        ensures
            r is Ok,
            final(self).class_hash_to_class@ == old(self).class_hash_to_class@.insert(class_hash, contract_class),
            final(self).class_hash_to_class.entries() == upsert(old(self).class_hash_to_class.entries(), class_hash, contract_class),
            *final(self) == (DictState { class_hash_to_class: final(self).class_hash_to_class, ..*old(self) }),
    {
        self.class_hash_to_class.insert(class_hash, contract_class);
        Ok(())
    }

    pub fn set_compiled_class_hash(&mut self, class_hash: ClassHash, compiled_class_hash: CompiledClassHash) -> (r: Result<(), StateError>)
        ensures
            r is Ok,
            final(self).class_hash_to_compiled_class_hash@ == old(self).class_hash_to_compiled_class_hash@.insert(class_hash, compiled_class_hash),
            final(self).class_hash_to_compiled_class_hash.entries() == upsert(old(self).class_hash_to_compiled_class_hash.entries(), class_hash, compiled_class_hash),
            *final(self) == (DictState { class_hash_to_compiled_class_hash: final(self).class_hash_to_compiled_class_hash, ..*old(self) }),
    {
        self.class_hash_to_compiled_class_hash.insert(class_hash, compiled_class_hash);
        Ok(())
    }

    /// Lists every change held in the overlay. Each list follows the order in
    /// which its keys were first written, names each key once, and names every
    /// key of its mapping, with the value that the mapping holds.
    pub fn to_state_diff(&mut self) -> (r: StateDiff)
        ensures
            *final(self) == *old(self),
            r.storage_updates@ == old(self).storage_view.entries(),
            r.address_to_nonce@ == old(self).address_to_nonce.entries(),
            r.address_to_class_hash@ == old(self).address_to_class_hash.entries(),
            r.declared_classes@ == keys_of(old(self).class_hash_to_class.entries()),
            r.class_hash_to_compiled_class_hash@ == old(self).class_hash_to_compiled_class_hash.entries(),
            old(self).storage_view.entries_match(),
            old(self).address_to_nonce.entries_match(),
            old(self).address_to_class_hash.entries_match(),
            old(self).class_hash_to_class.entries_match(),
            old(self).class_hash_to_compiled_class_hash.entries_match(),
    {
        StateDiff {
            storage_updates: copy_entries(&self.storage_view),
            address_to_nonce: copy_entries(&self.address_to_nonce),
            address_to_class_hash: copy_entries(&self.address_to_class_hash),
            declared_classes: keys_in_order(&self.class_hash_to_class),
            class_hash_to_compiled_class_hash: copy_entries(&self.class_hash_to_compiled_class_hash),
        }
    }

    /// Records that execution visited the program counters `pcs` of `class_hash`.
    pub fn add_visited_pcs(&mut self, class_hash: ClassHash, pcs: &[usize])
        ensures
            final(self).visited_pcs@ == old(self).visited_pcs@ + pcs@.map_values(|pc: usize| (class_hash, pc)),
            *final(self) == (DictState { visited_pcs: final(self).visited_pcs, ..*old(self) }),
    {
        let mut i: usize = 0;
        while i < pcs.len()
            invariant
                i <= pcs@.len(),
                self.visited_pcs@ == old(self).visited_pcs@ + pcs@.subrange(0, i as int).map_values(|pc: usize| (class_hash, pc)),
                *self == (DictState { visited_pcs: self.visited_pcs, ..*old(self) }),
            decreases pcs@.len() - i,
        {
            self.visited_pcs.push((class_hash, pcs[i]));
            i = i + 1;
            proof {
                assert(pcs@.subrange(0, i as int).map_values(|pc: usize| (class_hash, pc)) =~= pcs@.subrange(0, i - 1).map_values(|pc: usize| (class_hash, pc)).push((class_hash, pcs@[i - 1])));
            }
        }
        proof {
            assert(pcs@.subrange(0, pcs@.len() as int) =~= pcs@);
        }
    }
}

/// A storage value from the origin's answer; a failed request reads as zero.
pub fn storage_from_origin(answer: Result<Felt, OriginError>) -> (r: Felt)
    ensures
        r == value_or_zero(answer),
{
    match answer {
        Ok(value) => value,
        Err(_) => Felt::zero(),
    }
}

/// A nonce from the origin's answer; a failed request reads as nonce zero.
pub fn nonce_from_origin(answer: Result<Felt, OriginError>) -> (r: Nonce)
    ensures
        r == Nonce(value_or_zero(answer)),
{
    Nonce(storage_from_origin(answer))
}

/// A deployed class hash from the origin's answer; a failed request reads as
/// the zero hash, meaning no class is deployed.
pub fn class_hash_from_origin(answer: Result<Felt, OriginError>) -> (r: ClassHash)
    ensures
        r == ClassHash(value_or_zero(answer)),
{
    ClassHash(storage_from_origin(answer))
}

/// A class from the origin's answer. A missing class never reads as an empty one.
pub fn class_from_origin<C>(class_hash: ClassHash, answer: Result<C, OriginError>) -> (r: Result<C, StateError>)
    ensures
        r == class_or_error(class_hash, answer),
{
    match answer {
        Ok(class) => Ok(class),
        Err(OriginError::Unavailable) => Err(StateError::UndeclaredClassHash(class_hash)),
        Err(OriginError::ClassConversion) => Err(StateError::ClassConversion(class_hash)),
    }
}

/// The nonce that follows `current`, or an error where it leaves the range of
/// an unsigned 64-bit counter.
pub fn next_nonce(current: Nonce) -> (r: Result<Nonce, StateError>)
    ensures
        r == (match nonce_after(current) {
            Some(n) => Ok(n),
            None => Err(StateError::NonceOutOfRange),
        }),
{
    match current.0.to_u64() {
        Some(n) => {
            if n < u64::MAX {
                Ok(Nonce(Felt::from_u64(n + 1)))
            } else {
                Err(StateError::NonceOutOfRange)
            }
        },
        None => Err(StateError::NonceOutOfRange),
    }
}

} // verus!
