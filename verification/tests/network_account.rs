use std::collections::BTreeSet;

use miden_standards::{
    Account, AccountId, AccountStorage, AccountStorageMode, NetworkAccount,
    NetworkAccountNoteAllowlist, NetworkAccountNoteAllowlistError, NoteScriptRoot, StorageMap,
    StorageSlot, StorageSlotName, Word,
};

/// The storage slot of an allowlist with the given roots.
fn allowlist_slot(roots: &BTreeSet<NoteScriptRoot>) -> StorageSlot {
    let entries = roots.iter().map(|root| (root.as_word(), Word::from([1u32, 0, 0, 0]))).collect();
    StorageSlot::with_map(
        NetworkAccountNoteAllowlist::slot_name(),
        StorageMap::with_entries(entries).expect("non-empty allowlist"),
    )
}

/// The identifier derived from the first sixteen bytes of an account seed.
fn account_id(seed: [u8; 32]) -> AccountId {
    let mut bytes = [0u8; 16];
    bytes.copy_from_slice(&seed[..16]);
    AccountId::new(u128::from_le_bytes(bytes))
}

fn build_account(storage_mode: AccountStorageMode, roots: BTreeSet<NoteScriptRoot>) -> Account {
    let storage =
        AccountStorage::new(vec![allowlist_slot(&roots)]).expect("account building should succeed");
    Account::new(account_id([0; 32]), storage_mode, storage)
}

#[test]
fn public_account_with_allowlist_is_a_network_account() {
    let root = NoteScriptRoot::from_array([1, 2, 3, 4]);
    let roots = BTreeSet::from_iter([root]);
    let account = build_account(AccountStorageMode::Public, roots.clone());

    let network_account = NetworkAccount::new(account).expect("should be a network account");
    let actual: BTreeSet<NoteScriptRoot> =
        network_account.allowlist().allowed_script_roots().iter().copied().collect();
    assert_eq!(actual, roots);
}

#[test]
fn private_account_is_rejected_even_with_allowlist() {
    let root = NoteScriptRoot::from_array([1, 2, 3, 4]);
    let account = build_account(AccountStorageMode::Private, BTreeSet::from_iter([root]));

    let id = account.id();
    let err = NetworkAccount::new(account).expect_err("private account must be rejected");
    assert!(matches!(
        err,
        NetworkAccountNoteAllowlistError::AccountNotPublic(account_id) if account_id == id
    ));
}

#[test]
fn public_account_without_allowlist_is_not_a_network_account() {
    // An account whose only component keeps nothing in storage.
    let storage = AccountStorage::new(Vec::new()).expect("account building should succeed");
    let account = Account::new(account_id([0; 32]), AccountStorageMode::Public, storage);

    let err = NetworkAccount::new(account).expect_err("missing allowlist must be rejected");
    assert!(matches!(err, NetworkAccountNoteAllowlistError::SlotNotFound));
}

// Tests of this library
// ================================================================================================

#[test]
fn allowlist_slot_holding_a_value_is_rejected() {
    let storage = AccountStorage::new(vec![StorageSlot::with_value(
        NetworkAccountNoteAllowlist::slot_name(),
        Word::from([1u32, 2, 3, 4]),
    )])
    .unwrap();
    let account = Account::new(AccountId::new(7), AccountStorageMode::Public, storage);
    assert_eq!(NetworkAccount::new(account).unwrap_err(), NetworkAccountNoteAllowlistError::SlotNotMap);
}

#[test]
fn empty_allowlist_is_rejected() {
    let storage = AccountStorage::new(vec![StorageSlot::with_map(
        NetworkAccountNoteAllowlist::slot_name(),
        StorageMap::new(),
    )])
    .unwrap();
    let account = Account::new(AccountId::new(7), AccountStorageMode::Public, storage);
    assert_eq!(
        NetworkAccount::new(account).unwrap_err(),
        NetworkAccountNoteAllowlistError::EmptyAllowlist
    );
}

#[test]
fn private_account_is_rejected_before_storage_is_read() {
    let account = Account::new(
        AccountId::new(9),
        AccountStorageMode::Private,
        AccountStorage::new(Vec::new()).unwrap(),
    );
    assert_eq!(
        NetworkAccount::new(account).unwrap_err(),
        NetworkAccountNoteAllowlistError::AccountNotPublic(AccountId::new(9))
    );
}

#[test]
fn network_account_gives_back_its_account() {
    let roots = BTreeSet::from_iter([
        NoteScriptRoot::from_array([1, 2, 3, 4]),
        NoteScriptRoot::from_array([5, 6, 7, 8]),
    ]);
    let other = StorageSlot::with_value(StorageSlotName::new("other::slot"), Word::from([3u32, 0, 0, 0]));
    let storage = AccountStorage::new(vec![other, allowlist_slot(&roots)]).unwrap();
    let account = Account::new(AccountId::new(42), AccountStorageMode::Public, storage);
    let network_account = NetworkAccount::new(account).unwrap();
    assert_eq!(network_account.id(), AccountId::new(42));
    assert_eq!(network_account.allowlist().allowed_script_roots().len(), 2);
    assert_eq!(
        network_account.storage().get_item(&StorageSlotName::new("other::slot")).unwrap(),
        Word::from([3u32, 0, 0, 0])
    );
    assert!(network_account.as_account().is_public());
    let account = network_account.into_account();
    assert_eq!(account.id(), AccountId::new(42));
    assert_eq!(account.storage().slots().len(), 2);
    // The account is still a network account.
    assert!(NetworkAccount::new(account).is_ok());
}

#[test]
fn try_from_agrees_with_new() {
    let roots = BTreeSet::from_iter([NoteScriptRoot::from_array([9, 9, 9, 9])]);
    let account = build_account(AccountStorageMode::Public, roots.clone());
    let network_account = NetworkAccount::try_from(account).unwrap();
    assert_eq!(network_account.allowlist().allowed_script_roots().len(), 1);
    let account = build_account(AccountStorageMode::Private, roots);
    assert!(matches!(
        NetworkAccount::try_from(account),
        Err(NetworkAccountNoteAllowlistError::AccountNotPublic(_))
    ));
}
