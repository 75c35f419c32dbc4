use miden_standards::{
    Account, AccountComponent, AccountError, AccountId, AccountStorage, AccountStorageMode,
    AuthMultisigSpendingLimits, AuthMultisigSpendingLimitsConfig, Felt, PublicKeyCommitment,
    StorageMap, StorageSlotName, Word,
};

/// The identifier derived from the first sixteen bytes of an account seed.
fn account_id(seed: [u8; 32]) -> AccountId {
    let mut bytes = [0u8; 16];
    bytes.copy_from_slice(&seed[..16]);
    AccountId::new(u128::from_le_bytes(bytes))
}

/// Builds an account whose storage is the one the multisig component lays out.
fn build_account(
    seed: [u8; 32],
    multisig: AuthMultisigSpendingLimits,
) -> Result<Account, AccountError> {
    let component = AccountComponent::from_multisig(multisig);
    assert!(component.supports_all_types);
    let storage = AccountStorage::new(component.storage_slots)?;
    Ok(Account::new(account_id(seed), AccountStorageMode::Private, storage))
}

/// Lays out the component's storage as an account would hold it.
fn build_storage(multisig: AuthMultisigSpendingLimits) -> AccountStorage {
    build_account([1; 32], multisig).expect("account building failed").storage
}

/// Test multisig component setup with various configurations
#[test]
fn test_multisig_component_setup() {
    // Create test public keys
    let pub_key_1 = PublicKeyCommitment::from(Word::from([1u32, 0, 0, 0]));
    let pub_key_2 = PublicKeyCommitment::from(Word::from([2u32, 0, 0, 0]));
    let pub_key_3 = PublicKeyCommitment::from(Word::from([3u32, 0, 0, 0]));
    let approvers = vec![pub_key_1, pub_key_2, pub_key_3];
    let threshold = 2u32;

    // Create multisig component
    let multisig_component = AuthMultisigSpendingLimits::new(
        AuthMultisigSpendingLimitsConfig::new(approvers.clone(), threshold)
            .expect("invalid multisig config"),
    )
    .expect("multisig component creation failed");

    // Build account with multisig component
    let account = build_account([0; 32], multisig_component).expect("account building failed");

    // Verify config slot: [threshold, num_approvers, 0, 0]
    let config_slot = account
        .storage()
        .get_item(&AuthMultisigSpendingLimits::threshold_config_slot())
        .expect("config storage slot access failed");
    assert_eq!(config_slot, Word::from([threshold, approvers.len() as u32, 0, 0]));

    // Verify approver pub keys slot
    for (i, expected_pub_key) in approvers.iter().enumerate() {
        let stored_pub_key = account
            .storage()
            .get_map_item(
                &AuthMultisigSpendingLimits::approver_public_keys_slot(),
                Word::from([i as u32, 0, 0, 0]),
            )
            .expect("approver public key storage map access failed");
        assert_eq!(stored_pub_key, Word::from(*expected_pub_key));
    }
}

/// Test multisig component with minimum threshold (1 of 1)
#[test]
fn test_multisig_component_minimum_threshold() {
    let pub_key = PublicKeyCommitment::from(Word::from([42u32, 0, 0, 0]));
    let approvers = vec![pub_key];
    let threshold = 1u32;

    let multisig_component = AuthMultisigSpendingLimits::new(
        AuthMultisigSpendingLimitsConfig::new(approvers.clone(), threshold)
            .expect("invalid multisig config"),
    )
    .expect("multisig component creation failed");

    let account = build_account([0; 32], multisig_component).expect("account building failed");

    // Verify storage layout
    let config_slot = account
        .storage()
        .get_item(&AuthMultisigSpendingLimits::threshold_config_slot())
        .expect("config storage slot access failed");
    assert_eq!(config_slot, Word::from([threshold, approvers.len() as u32, 0, 0]));

    let stored_pub_key = account
        .storage()
        .get_map_item(
            &AuthMultisigSpendingLimits::approver_public_keys_slot(),
            Word::from([0u32, 0, 0, 0]),
        )
        .expect("approver pub keys storage map access failed");
    assert_eq!(stored_pub_key, Word::from(pub_key));
}

/// Test multisig component error cases
#[test]
fn test_multisig_component_error_cases() {
    let pub_key = PublicKeyCommitment::from(Word::from([1u32, 0, 0, 0]));
    let approvers = vec![pub_key];

    // Test threshold = 0 (should fail)
    let result = AuthMultisigSpendingLimitsConfig::new(approvers.clone(), 0);
    assert!(result.unwrap_err().message().contains("threshold must be at least 1"));

    // Test threshold > number of approvers (should fail)
    let result = AuthMultisigSpendingLimitsConfig::new(approvers, 2);
    assert!(
        result
            .unwrap_err()
            .message()
            .contains("threshold cannot be greater than number of approvers")
    );
}

/// Test multisig component with duplicate approvers (should fail)
#[test]
fn test_multisig_component_duplicate_approvers() {
    let pub_key_1 = PublicKeyCommitment::from(Word::from([1u32, 0, 0, 0]));
    let pub_key_2 = PublicKeyCommitment::from(Word::from([2u32, 0, 0, 0]));

    // Test with duplicate approvers (should fail)
    let approvers = vec![pub_key_1, pub_key_2, pub_key_1];
    let result = AuthMultisigSpendingLimitsConfig::new(approvers, 2);
    assert!(
        result
            .unwrap_err()
            .message()
            .contains("duplicate approver public keys are not allowed")
    );
}

// Test multisig component with spending limits configuration
#[test]
fn test_multisig_component_spending_limits_configuration() {
    let pub_key_1 = PublicKeyCommitment::from(Word::from([1u32, 0, 0, 0]));
    let pub_key_2 = PublicKeyCommitment::from(Word::from([2u32, 0, 0, 0]));

    let approvers = vec![pub_key_1, pub_key_2];
    let threshold = 2u32;
    let spent_interval_blocks = 100u32;
    let amount_limits = [1000u64, 5000u64, 10000u64, 10u64];
    let tier_thresholds = [100u32, 500u32, 1000u32, 5000u32];
    let oracle_id = [Felt::from(1234u32), Felt::from(5678u32)];
    let get_price_proc_root =
        Word::from([0xdeadbeef_u32, 0xcafebabe_u32, 0xfeedface_u32, 0xabad1dea_u32]);

    let multisig_component = AuthMultisigSpendingLimits::new(
        AuthMultisigSpendingLimitsConfig::new(approvers.clone(), threshold)
            .expect("invalid multisig config")
            .with_spent_interval_blocks(spent_interval_blocks)
            .with_amount_limits(amount_limits)
            .with_tier_thresholds(tier_thresholds)
            .with_oracle_config(oracle_id)
            .with_get_price_proc_root(get_price_proc_root),
    )
    .expect("multisig component creation failed");

    // Verify storage layout
    let account = build_account([0; 32], multisig_component).expect("account building failed");

    let spent_interval_slot = account
        .storage()
        .get_item(&AuthMultisigSpendingLimits::spent_interval_blocks_slot())
        .expect("spent interval blocks storage slot access failed");
    assert_eq!(spent_interval_slot, Word::from([spent_interval_blocks, 0, 0, 0]));

    let amount_limits_slot = account
        .storage()
        .get_item(&AuthMultisigSpendingLimits::amount_limits_slot())
        .expect("amount limits storage slot access failed");
    assert_eq!(
        amount_limits_slot,
        Word::from([
            amount_limits[0] as u32,
            amount_limits[1] as u32,
            amount_limits[2] as u32,
            amount_limits[3] as u32,
        ])
    );

    let tier_thresholds_slot = account
        .storage()
        .get_item(&AuthMultisigSpendingLimits::tier_threshold_config_slot())
        .expect("tier thresholds storage slot access failed");
    assert_eq!(
        tier_thresholds_slot,
        Word::from([
            tier_thresholds[0],
            tier_thresholds[1],
            tier_thresholds[2],
            tier_thresholds[3],
        ])
    );

    let oracle_config_slot = account
        .storage()
        .get_item(&AuthMultisigSpendingLimits::oracle_config_slot())
        .expect("oracle config storage slot access failed");
    assert_eq!(
        oracle_config_slot,
        Word::from([oracle_id[0], oracle_id[1], Felt::from(0u32), Felt::from(0u32)])
    );

    let get_price_proc_root_slot = account
        .storage()
        .get_item(&AuthMultisigSpendingLimits::get_price_proc_root_slot())
        .expect("get price proc root storage slot access failed");
    assert_eq!(get_price_proc_root_slot, get_price_proc_root);
}

// Tests of this library
// ================================================================================================

fn keys(values: &[u32]) -> Vec<PublicKeyCommitment> {
    values.iter().map(|v| PublicKeyCommitment::from(Word::from([*v, 0, 0, 0]))).collect()
}

#[test]
fn config_starts_with_zero_settings() {
    let config = AuthMultisigSpendingLimitsConfig::new(keys(&[7, 8]), 1).unwrap();
    assert_eq!(config.approvers().len(), 2);
    assert_eq!(config.approvers()[1].as_word(), Word::from([8u32, 0, 0, 0]));
    assert_eq!(config.default_threshold(), 1);
    assert!(config.proc_thresholds().is_empty());
    assert_eq!(config.spent_interval_blocks(), 0);
    assert_eq!(config.amount_limits(), &[0u64; 4]);
    assert_eq!(config.tier_thresholds(), &[0u32; 4]);
    assert_eq!(config.oracle_id(), &[Felt::from(0u32), Felt::from(0u32)]);
    assert_eq!(config.get_price_proc_root(), &Word::from([0u32, 0, 0, 0]));
}

#[test]
fn threshold_equal_to_number_of_approvers_is_accepted() {
    assert!(AuthMultisigSpendingLimitsConfig::new(keys(&[1, 2, 3]), 3).is_ok());
    assert_eq!(
        AuthMultisigSpendingLimitsConfig::new(keys(&[1, 2, 3]), 4).unwrap_err(),
        AccountError::ThresholdExceedsApprovers
    );
    assert_eq!(
        AuthMultisigSpendingLimitsConfig::new(Vec::new(), 1).unwrap_err(),
        AccountError::ThresholdExceedsApprovers
    );
}

#[test]
fn threshold_error_comes_before_duplicate_error() {
    // Both the threshold and the approvers are wrong: the threshold is reported.
    assert_eq!(
        AuthMultisigSpendingLimitsConfig::new(keys(&[5, 5]), 0).unwrap_err(),
        AccountError::ThresholdIsZero
    );
    assert_eq!(
        AuthMultisigSpendingLimitsConfig::new(keys(&[5, 5]), 3).unwrap_err(),
        AccountError::ThresholdExceedsApprovers
    );
    assert_eq!(
        AuthMultisigSpendingLimitsConfig::new(keys(&[5, 6, 5]), 2).unwrap_err(),
        AccountError::DuplicateApprovers
    );
}

#[test]
fn procedure_thresholds_are_checked_in_order() {
    let root_a = Word::from([10u32, 0, 0, 0]);
    let root_b = Word::from([11u32, 0, 0, 0]);
    let config = AuthMultisigSpendingLimitsConfig::new(keys(&[1, 2]), 2).unwrap();
    let err = config.with_proc_thresholds(vec![(root_a, 3), (root_b, 0)]).unwrap_err();
    assert_eq!(err, AccountError::ProcedureThresholdExceedsApprovers);
    assert!(err.message().contains("procedure threshold cannot be greater than number of approvers"));

    let config = AuthMultisigSpendingLimitsConfig::new(keys(&[1, 2]), 2).unwrap();
    let err = config.with_proc_thresholds(vec![(root_a, 0), (root_b, 3)]).unwrap_err();
    assert_eq!(err, AccountError::ProcedureThresholdIsZero);
    assert!(err.message().contains("procedure threshold must be at least 1"));

    let config = AuthMultisigSpendingLimitsConfig::new(keys(&[1, 2]), 2).unwrap();
    let config = config.with_proc_thresholds(vec![(root_a, 1), (root_b, 2)]).unwrap();
    assert_eq!(config.proc_thresholds(), &[(root_a, 1), (root_b, 2)]);
}

#[test]
fn procedure_thresholds_are_stored_under_their_roots() {
    let root_a = Word::from([10u32, 20, 30, 40]);
    let root_b = Word::from([11u32, 0, 0, 0]);
    let config = AuthMultisigSpendingLimitsConfig::new(keys(&[1, 2, 3]), 2)
        .unwrap()
        .with_proc_thresholds(vec![(root_a, 1), (root_b, 3)])
        .unwrap();
    let storage = build_storage(AuthMultisigSpendingLimits::new(config).unwrap());
    let slot = AuthMultisigSpendingLimits::procedure_thresholds_slot();
    assert_eq!(storage.get_map_item(&slot, root_a).unwrap(), Word::from([1u32, 0, 0, 0]));
    assert_eq!(storage.get_map_item(&slot, root_b).unwrap(), Word::from([3u32, 0, 0, 0]));
    // A root without a threshold reads as the empty word.
    assert_eq!(
        storage.get_map_item(&slot, Word::from([12u32, 0, 0, 0])).unwrap(),
        Word::from([0u32, 0, 0, 0])
    );
}

#[test]
fn component_lays_out_nine_slots() {
    let config = AuthMultisigSpendingLimitsConfig::new(keys(&[1, 2]), 1).unwrap();
    let component =
        AccountComponent::from_multisig(AuthMultisigSpendingLimits::new(config).unwrap());
    assert_eq!(component.storage_slots().len(), 9);
    let names: Vec<&str> = component.storage_slots().iter().map(|s| s.name().as_str()).collect();
    assert_eq!(
        names,
        vec![
            "miden::standards::auth::ecdsa_k256_keccak_multisig::threshold_config",
            "miden::standards::auth::ecdsa_k256_keccak_multisig::approver_public_keys",
            "miden::standards::auth::ecdsa_k256_keccak_multisig::executed_transactions",
            "miden::standards::auth::ecdsa_k256_keccak_multisig::procedure_thresholds",
            "miden::standards::auth::ecdsa_k256_keccak_multisig::spent_interval_blocks",
            "miden::standards::auth::ecdsa_k256_keccak_multisig::amount_limits",
            "miden::standards::auth::ecdsa_k256_keccak_multisig::tier_threshold_config",
            "miden::standards::auth::ecdsa_k256_keccak_multisig::oracle_config",
            "miden::standards::auth::ecdsa_k256_keccak_multisig::get_price_proc_root",
        ]
    );
    let storage = AccountStorage::new(component.storage_slots).unwrap();
    // The spending tracker has a name but no slot.
    assert_eq!(
        AuthMultisigSpendingLimits::spending_tracker_slot().as_str(),
        "miden::standards::auth::ecdsa_k256_keccak_multisig::spending_tracker"
    );
    assert_eq!(
        storage.get_item(&AuthMultisigSpendingLimits::spending_tracker_slot()).unwrap_err(),
        AccountError::StorageSlotNameNotFound
    );
    // The executed transactions map starts empty, and map slots hold no single value.
    let executed = AuthMultisigSpendingLimits::executed_transactions_slot();
    assert_eq!(
        storage.get_map_item(&executed, Word::from([0u32, 0, 0, 0])).unwrap(),
        Word::from([0u32, 0, 0, 0])
    );
    assert_eq!(storage.get_item(&executed).unwrap_err(), AccountError::StorageSlotNotValue);
    assert_eq!(
        storage
            .get_map_item(&AuthMultisigSpendingLimits::threshold_config_slot(), Word::empty())
            .unwrap_err(),
        AccountError::StorageSlotNotMap
    );
    assert_eq!(
        storage.get_item(&StorageSlotName::new("some::other::slot")).unwrap_err(),
        AccountError::StorageSlotNameNotFound
    );
    let _ = StorageMap::new();
}

#[test]
fn amount_limits_are_truncated_to_32_bits() {
    let config = AuthMultisigSpendingLimitsConfig::new(keys(&[1]), 1)
        .unwrap()
        .with_amount_limits([0x1_0000_0005u64, u64::MAX, 7, 0xffff_ffff]);
    assert_eq!(config.amount_limits(), &[0x1_0000_0005u64, u64::MAX, 7, 0xffff_ffff]);
    let storage = build_storage(AuthMultisigSpendingLimits::new(config).unwrap());
    assert_eq!(
        storage.get_item(&AuthMultisigSpendingLimits::amount_limits_slot()).unwrap(),
        Word::from([5u32, 0xffff_ffff, 7, 0xffff_ffff])
    );
}

#[test]
fn builders_change_only_their_setting() {
    let root = Word::from([9u32, 9, 9, 9]);
    let config = AuthMultisigSpendingLimitsConfig::new(keys(&[1, 2]), 2)
        .unwrap()
        .with_tier_thresholds([1, 2, 3, 4])
        .with_spent_interval_blocks(17)
        .with_get_price_proc_root(root);
    assert_eq!(config.tier_thresholds(), &[1, 2, 3, 4]);
    assert_eq!(config.spent_interval_blocks(), 17);
    assert_eq!(config.get_price_proc_root(), &root);
    assert_eq!(config.default_threshold(), 2);
    assert_eq!(config.amount_limits(), &[0u64; 4]);
    assert_eq!(config.approvers().len(), 2);
}

#[test]
fn checked_component_refuses_a_repeated_procedure_root() {
    let root = Word::from([10u32, 0, 0, 0]);
    let config = AuthMultisigSpendingLimitsConfig::new(keys(&[1, 2]), 1)
        .unwrap()
        .with_proc_thresholds(vec![(root, 1), (Word::from([11u32, 0, 0, 0]), 2), (root, 2)])
        .unwrap();
    let err = AccountComponent::try_from_multisig(AuthMultisigSpendingLimits::new(config).unwrap())
        .unwrap_err();
    assert_eq!(err, miden_standards::StorageMapError::DuplicateKey { key: root });

    let config = AuthMultisigSpendingLimitsConfig::new(keys(&[1, 2]), 1).unwrap();
    let component =
        AccountComponent::try_from_multisig(AuthMultisigSpendingLimits::new(config).unwrap())
            .unwrap();
    assert_eq!(component.library, miden_standards::ComponentLibrary::MultisigSpendingLimits);
    assert_eq!(component.storage_slots().len(), 9);
}

#[test]
fn builder_sequences_keep_approvers_and_threshold() {
    let approvers = keys(&[4, 5, 6]);
    let config = AuthMultisigSpendingLimitsConfig::new(approvers.clone(), 2)
        .unwrap()
        .with_oracle_config([Felt::from(1u32), Felt::from(2u32)])
        .with_proc_thresholds(vec![(Word::from([1u32, 1, 1, 1]), 3)])
        .unwrap()
        .with_amount_limits([1, 2, 3, 4])
        .with_spent_interval_blocks(5)
        .with_tier_thresholds([6, 7, 8, 9])
        .with_get_price_proc_root(Word::from([2u32, 2, 2, 2]));
    assert_eq!(config.approvers(), &approvers[..]);
    assert_eq!(config.default_threshold(), 2);
}
