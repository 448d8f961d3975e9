use starknet_devnet_core::{
    class_from_origin, class_hash_from_origin, next_nonce, nonce_from_origin, storage_from_origin,
    ClassHash, CompiledClassHash, ContractAddress, DictState, Felt, ForkConfig, Lookup, Nonce,
    OriginError, StateError, StorageEntry, StorageKey,
};

fn felt(n: u64) -> Felt {
    Felt::from_u64(n)
}

fn closed() -> DictState<String> {
    DictState::new(ForkConfig { url: None, block: None })
}

fn forked(block: u64) -> DictState<String> {
    DictState::new(ForkConfig { url: Some("http://localhost:5050".to_string()), block: Some(block) })
}

#[test]
fn round_trip_scenario() {
    let mut state = closed();
    let address = ContractAddress(felt(0x1));
    let key = StorageKey(felt(0x5));
    assert!(state.set_storage_at(address, key, felt(0x2A)).is_ok());
    assert_eq!(state.get_storage_at(address, key), Lookup::Resolved(felt(0x2A)));

    assert_eq!(state.increment_nonce(address), Ok(Lookup::Resolved(())));
    assert_eq!(state.increment_nonce(address), Ok(Lookup::Resolved(())));
    assert_eq!(state.get_nonce_at(address), Lookup::Resolved(Nonce(felt(2))));

    let zero = ContractAddress(Felt::zero());
    assert_eq!(
        state.set_class_hash_at(zero, ClassHash(felt(0xABC))),
        Err(StateError::OutOfRangeContractAddress)
    );
    assert!(!state.address_to_class_hash.contains_key(&zero));
    assert_eq!(state.address_to_class_hash.len(), 0);
}

#[test]
fn class_declaration_scenario() {
    let mut state = closed();
    let declared = ClassHash(felt(0xABC));
    let body = "class body".to_string();
    assert!(state.set_contract_class(declared, body.clone()).is_ok());
    assert_eq!(state.get_compiled_contract_class(declared), Ok(Lookup::Resolved(&body)));
    let missing = ClassHash(felt(0xDEF));
    assert_eq!(
        state.get_compiled_contract_class(missing),
        Err(StateError::UndeclaredClassHash(missing))
    );
}

#[test]
fn overlay_shadows_fork() {
    let mut state = forked(7);
    let address = ContractAddress(felt(3));
    let key = StorageKey(felt(4));
    let class_hash = ClassHash(felt(9));
    state.set_storage_at(address, key, felt(11)).unwrap();
    state.set_class_hash_at(address, class_hash).unwrap();
    state.set_contract_class(class_hash, "local".to_string()).unwrap();
    state.set_compiled_class_hash(class_hash, CompiledClassHash(felt(12))).unwrap();
    assert_eq!(state.get_storage_at(address, key), Lookup::Resolved(felt(11)));
    assert_eq!(state.get_class_hash_at(address), Lookup::Resolved(class_hash));
    assert_eq!(
        state.get_compiled_contract_class(class_hash),
        Ok(Lookup::Resolved(&"local".to_string()))
    );
    assert_eq!(state.get_compiled_class_hash(class_hash), Ok(CompiledClassHash(felt(12))));
}

#[test]
fn last_write_wins() {
    let mut state = closed();
    let address = ContractAddress(felt(1));
    let key = StorageKey(felt(2));
    state.set_storage_at(address, key, felt(10)).unwrap();
    state.set_storage_at(address, key, felt(20)).unwrap();
    assert_eq!(state.get_storage_at(address, key), Lookup::Resolved(felt(20)));
    assert_eq!(state.storage_view.len(), 1);
}

#[test]
fn zero_address_is_refused() {
    let mut state = forked(1);
    let zero = ContractAddress(Felt::zero());
    assert_eq!(
        state.set_class_hash_at(zero, ClassHash(felt(5))),
        Err(StateError::OutOfRangeContractAddress)
    );
    assert_eq!(state.address_to_class_hash.len(), 0);
    assert_eq!(state.get_class_hash_at(zero), Lookup::AskOrigin(1));
}

#[test]
fn nonce_counts_increments() {
    let mut state = closed();
    let address = ContractAddress(felt(42));
    for _ in 0..5 {
        assert_eq!(state.increment_nonce(address), Ok(Lookup::Resolved(())));
    }
    assert_eq!(state.get_nonce_at(address), Lookup::Resolved(Nonce(felt(5))));
    assert_eq!(state.get_nonce_at(ContractAddress(felt(43))), Lookup::Resolved(Nonce(felt(0))));
}

#[test]
fn nonce_overflow_leaves_nonce_unchanged() {
    let mut state = closed();
    let address = ContractAddress(felt(1));
    let large = Nonce(Felt::from_parts(0, 1u128 << 64).unwrap());
    state.address_to_nonce.insert(address, large);
    assert_eq!(state.increment_nonce(address), Err(StateError::NonceOutOfRange));
    assert_eq!(state.get_nonce_at(address), Lookup::Resolved(large));

    let top = Nonce(felt(u64::MAX));
    state.address_to_nonce.insert(address, top);
    assert_eq!(state.increment_nonce(address), Err(StateError::NonceOutOfRange));
    assert_eq!(state.get_nonce_at(address), Lookup::Resolved(top));

    let below = Nonce(felt(u64::MAX - 1));
    state.address_to_nonce.insert(address, below);
    assert_eq!(state.increment_nonce(address), Ok(Lookup::Resolved(())));
    assert_eq!(state.get_nonce_at(address), Lookup::Resolved(top));
}

#[test]
fn next_nonce_values() {
    assert_eq!(next_nonce(Nonce(felt(0))), Ok(Nonce(felt(1))));
    assert_eq!(next_nonce(Nonce(felt(41))), Ok(Nonce(felt(42))));
    assert_eq!(next_nonce(Nonce(felt(u64::MAX))), Err(StateError::NonceOutOfRange));
    let high = Felt::from_parts(1, 0).unwrap();
    assert_eq!(next_nonce(Nonce(high)), Err(StateError::NonceOutOfRange));
}

#[test]
fn closed_state_defaults() {
    let state = closed();
    let address = ContractAddress(felt(8));
    let class_hash = ClassHash(felt(8));
    assert_eq!(state.get_storage_at(address, StorageKey(felt(1))), Lookup::Resolved(Felt::zero()));
    assert_eq!(state.get_nonce_at(address), Lookup::Resolved(Nonce(Felt::zero())));
    assert_eq!(state.get_class_hash_at(address), Lookup::Resolved(ClassHash(Felt::zero())));
    assert_eq!(
        state.get_compiled_contract_class(class_hash),
        Err(StateError::UndeclaredClassHash(class_hash))
    );
    assert_eq!(
        state.get_compiled_class_hash(class_hash),
        Err(StateError::UndeclaredClassHash(class_hash))
    );
}

#[test]
fn forked_misses_ask_the_origin() {
    let state = forked(123);
    let address = ContractAddress(felt(8));
    let class_hash = ClassHash(felt(8));
    assert_eq!(state.get_storage_at(address, StorageKey(felt(1))), Lookup::AskOrigin(123));
    assert_eq!(state.get_nonce_at(address), Lookup::AskOrigin(123));
    assert_eq!(state.get_class_hash_at(address), Lookup::AskOrigin(123));
    assert_eq!(state.get_compiled_contract_class(class_hash), Ok(Lookup::AskOrigin(123)));
    assert_eq!(state.get_compiled_class_hash(class_hash), Ok(CompiledClassHash(Felt::zero())));
}

#[test]
fn fork_fallback_then_local_write() {
    let mut state = forked(50);
    let address = ContractAddress(felt(2));
    let key = StorageKey(felt(3));
    let origin_value = felt(777);
    assert_eq!(state.get_storage_at(address, key), Lookup::AskOrigin(50));
    assert_eq!(storage_from_origin(Ok(origin_value)), origin_value);
    state.set_storage_at(address, key, felt(1)).unwrap();
    assert_eq!(state.get_storage_at(address, key), Lookup::Resolved(felt(1)));
}

#[test]
fn origin_answers() {
    assert_eq!(storage_from_origin(Err(OriginError::Unavailable)), Felt::zero());
    assert_eq!(nonce_from_origin(Ok(felt(4))), Nonce(felt(4)));
    assert_eq!(nonce_from_origin(Err(OriginError::Unavailable)), Nonce(Felt::zero()));
    assert_eq!(class_hash_from_origin(Ok(felt(6))), ClassHash(felt(6)));
    assert_eq!(class_hash_from_origin(Err(OriginError::Unavailable)), ClassHash(Felt::zero()));
    let class_hash = ClassHash(felt(10));
    assert_eq!(class_from_origin(class_hash, Ok("remote".to_string())), Ok("remote".to_string()));
    assert_eq!(
        class_from_origin::<String>(class_hash, Err(OriginError::Unavailable)),
        Err(StateError::UndeclaredClassHash(class_hash))
    );
    assert_eq!(
        class_from_origin::<String>(class_hash, Err(OriginError::ClassConversion)),
        Err(StateError::ClassConversion(class_hash))
    );
}

#[test]
fn increment_on_fork_uses_origin_nonce() {
    let mut state = forked(9);
    let address = ContractAddress(felt(5));
    assert_eq!(state.increment_nonce(address), Ok(Lookup::AskOrigin(9)));
    assert_eq!(state.address_to_nonce.len(), 0);
    assert_eq!(state.increment_nonce_with_origin(address, Ok(felt(7))), Ok(()));
    assert_eq!(state.get_nonce_at(address), Lookup::Resolved(Nonce(felt(8))));
    assert_eq!(state.increment_nonce(address), Ok(Lookup::Resolved(())));
    assert_eq!(state.get_nonce_at(address), Lookup::Resolved(Nonce(felt(9))));

    let other = ContractAddress(felt(6));
    assert_eq!(state.increment_nonce_with_origin(other, Err(OriginError::Unavailable)), Ok(()));
    assert_eq!(state.get_nonce_at(other), Lookup::Resolved(Nonce(felt(1))));

    let far = ContractAddress(felt(7));
    let huge = Felt::from_parts(5, 0).unwrap();
    assert_eq!(state.increment_nonce_with_origin(far, Ok(huge)), Err(StateError::NonceOutOfRange));
    assert_eq!(state.get_nonce_at(far), Lookup::AskOrigin(9));
}

#[test]
fn state_diff_lists_changes_in_write_order() {
    let mut state = closed();
    let a = ContractAddress(felt(1));
    let b = ContractAddress(felt(2));
    state.set_storage_at(b, StorageKey(felt(1)), felt(100)).unwrap();
    state.set_storage_at(a, StorageKey(felt(2)), felt(200)).unwrap();
    state.set_storage_at(b, StorageKey(felt(1)), felt(300)).unwrap();
    state.increment_nonce(a).unwrap();
    state.set_class_hash_at(b, ClassHash(felt(55))).unwrap();
    state.set_contract_class(ClassHash(felt(56)), "second".to_string()).unwrap();
    state.set_contract_class(ClassHash(felt(55)), "first".to_string()).unwrap();
    state.set_compiled_class_hash(ClassHash(felt(55)), CompiledClassHash(felt(66))).unwrap();
    let diff = state.to_state_diff();
    assert_eq!(
        diff.storage_updates,
        vec![
            (StorageEntry(b, StorageKey(felt(1))), felt(300)),
            (StorageEntry(a, StorageKey(felt(2))), felt(200)),
        ]
    );
    assert_eq!(diff.address_to_nonce, vec![(a, Nonce(felt(1)))]);
    assert_eq!(diff.address_to_class_hash, vec![(b, ClassHash(felt(55)))]);
    assert_eq!(diff.declared_classes, vec![ClassHash(felt(56)), ClassHash(felt(55))]);
    assert_eq!(
        diff.class_hash_to_compiled_class_hash,
        vec![(ClassHash(felt(55)), CompiledClassHash(felt(66)))]
    );
}

#[test]
fn empty_state_has_empty_diff() {
    let mut state = forked(3);
    let diff = state.to_state_diff();
    assert!(diff.storage_updates.is_empty());
    assert!(diff.address_to_nonce.is_empty());
    assert!(diff.address_to_class_hash.is_empty());
    assert!(diff.declared_classes.is_empty());
    assert!(diff.class_hash_to_compiled_class_hash.is_empty());
}

#[test]
fn visited_pcs_are_recorded() {
    let mut state = closed();
    let class_hash = ClassHash(felt(3));
    state.add_visited_pcs(class_hash, &[4, 8]);
    state.add_visited_pcs(ClassHash(felt(4)), &[]);
    state.add_visited_pcs(class_hash, &[1]);
    assert_eq!(state.visited_pcs, vec![(class_hash, 4), (class_hash, 8), (class_hash, 1)]);
}
