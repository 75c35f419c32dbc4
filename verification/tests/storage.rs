use miden_standards::{
    AccountError, AccountStorage, AuthMultisigSpendingLimitsConfig, PublicKeyCommitment,
    StorageMap, StorageMapError, StorageSlot, StorageSlotContent, StorageSlotName, Word,
};

fn w(v: u32) -> Word {
    Word::from([v, 0, 0, 0])
}

#[test]
fn storage_map_reads_back_its_entries() {
    let map = StorageMap::with_entries(vec![(w(1), w(10)), (w(2), w(20)), (w(3), w(30))]).unwrap();
    assert_eq!(map.get(&w(1)), w(10));
    assert_eq!(map.get(&w(2)), w(20));
    assert_eq!(map.get(&w(3)), w(30));
    assert_eq!(map.get(&w(4)), Word::empty());
    assert_eq!(map.num_entries(), 3);
    assert!(!map.is_empty());
    assert!(StorageMap::new().is_empty());
    assert_eq!(map.entries(), &vec![(w(1), w(10)), (w(2), w(20)), (w(3), w(30))]);
}

#[test]
fn storage_map_rejects_a_repeated_key() {
    let err = StorageMap::with_entries(vec![(w(1), w(10)), (w(2), w(20)), (w(1), w(30))])
        .unwrap_err();
    assert_eq!(err, StorageMapError::DuplicateKey { key: w(1) });
}

#[test]
fn account_storage_rejects_a_repeated_slot_name() {
    let slots = vec![
        StorageSlot::with_value(StorageSlotName::new("a"), w(1)),
        StorageSlot::with_value(StorageSlotName::new("b"), w(2)),
        StorageSlot::with_value(StorageSlotName::new("a"), w(3)),
    ];
    assert_eq!(AccountStorage::new(slots).unwrap_err(), AccountError::DuplicateStorageSlotName);
    assert_eq!(
        AccountError::DuplicateStorageSlotName.message(),
        "duplicate storage slot name".to_string()
    );
}

#[test]
fn account_storage_finds_slots_by_name() {
    let map = StorageMap::with_entries(vec![(w(5), w(50))]).unwrap();
    let slots = vec![
        StorageSlot::with_value(StorageSlotName::new("value"), w(1)),
        StorageSlot::with_map(StorageSlotName::new("map"), map),
    ];
    let storage = AccountStorage::new(slots).unwrap();
    let found = storage.find_slot(&StorageSlotName::new("map")).unwrap();
    assert_eq!(found.name().as_str(), "map");
    assert!(matches!(found.content(), StorageSlotContent::StorageMap(_)));
    assert!(storage.find_slot(&StorageSlotName::new("none")).is_none());
    assert_eq!(storage.get_item(&StorageSlotName::new("value")).unwrap(), w(1));
    assert_eq!(storage.get_map_item(&StorageSlotName::new("map"), w(5)).unwrap(), w(50));
    assert_eq!(
        storage.get_map_item(&StorageSlotName::new("value"), w(5)).unwrap_err(),
        AccountError::StorageSlotNotMap
    );
    let copy = storage.clone();
    assert_eq!(copy, storage);
}

#[test]
fn config_clone_is_equal() {
    let keys: Vec<PublicKeyCommitment> =
        (1..4u32).map(|v| PublicKeyCommitment::from(w(v))).collect();
    let config = AuthMultisigSpendingLimitsConfig::new(keys, 2)
        .unwrap()
        .with_proc_thresholds(vec![(w(9), 1)])
        .unwrap();
    let copy = config.clone();
    assert_eq!(copy, config);
}
