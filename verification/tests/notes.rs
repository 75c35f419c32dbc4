use miden_crypto::hash::rpo::Rpo256;
use miden_standards::{
    build_swap_tag, create_burn_note, create_mint_note, create_p2id_note, create_p2ide_note,
    create_swap_note, AccountId, Felt, NoteError, NoteExecutionHint, NoteInputs, NoteScript,
    NoteTag, NoteType, Word,
};

fn w(a: u32, b: u32, c: u32, d: u32) -> Word {
    Word::from([a, b, c, d])
}

fn script(v: u32) -> NoteScript {
    NoteScript::new(w(v, v, v, v))
}

fn to_miden(word: &Word) -> miden_crypto::Word {
    miden_crypto::Word::new(word.as_elements().map(|f| miden_crypto::Felt::new(f.as_canonical_u64())))
}

fn felts(word: &miden_crypto::Word) -> Vec<u64> {
    word.as_elements().iter().map(|f| f.as_canonical_u64()).collect()
}

fn felts_of(word: &Word) -> Vec<u64> {
    word.as_elements().iter().map(|f| f.as_canonical_u64()).collect()
}

// The account identifier whose prefix (high 64 bits) is `prefix` and suffix is `suffix`.
fn account(prefix: u64, suffix: u64) -> AccountId {
    AccountId::new(((prefix as u128) << 64) | suffix as u128)
}

#[test]
fn account_tags_keep_the_top_fourteen_bits_of_the_prefix() {
    let id = account(0xABCD_EF12_3456_7800, 0x42);
    // prefix >> 34 = 0x2AF3_7BC4; top 14 of its 30 bits, masked into 0xFFFF_0000.
    assert_eq!(NoteTag::from_account_id(id).value, 0xC000_0000 | (0x2AF3_7BC4 & 0xFFFF_0000));
}

#[test]
fn swap_tags_carry_the_faucet_prefix_bytes() {
    let offered = w(10, 0, 0, 0xAB00_0000);
    let requested = w(20, 0, 0, 0x1200_0000);
    // The last element (a u32 here) is below 2^52, so both payload bytes are zero.
    assert_eq!(build_swap_tag(NoteType::Public, &offered, &requested).value, 0x8000_0000);
    assert_eq!(build_swap_tag(NoteType::Private, &offered, &requested).value, 0xC000_0000);
    let offered = Word::new([Felt::from(1u32), Felt::from(0u32), Felt::from(0u32), Felt::new(0xAB10_0000_0000_0000)]);
    let requested = Word::new([Felt::from(1u32), Felt::from(0u32), Felt::from(0u32), Felt::new(0x0120_0000_0000_0000)]);
    assert_eq!(build_swap_tag(NoteType::Public, &offered, &requested).value, 0x8000_B112);
}

#[test]
fn execution_hints_encode_tag_and_payload() {
    assert_eq!(NoteExecutionHint::always().to_felt().as_canonical_u64(), 1 << 32);
    let hint = NoteExecutionHint::after_block(77).unwrap();
    assert_eq!(hint, NoteExecutionHint::AfterBlock { block_num: 77 });
    assert_eq!(hint.to_felt().as_canonical_u64(), (2 << 32) + 77);
    assert_eq!(NoteExecutionHint::after_block(u32::MAX).unwrap_err(), NoteError::AfterBlockCannotBeU32Max);
    assert_eq!(NoteType::Public.to_felt().as_canonical_u64(), 1);
    assert_eq!(NoteType::Private.to_felt().as_canonical_u64(), 2);
}

#[test]
fn p2id_note_targets_its_account() {
    let sender = account(1, 2);
    let target = account(0x0123_4567_89AB_CD00, 0x77);
    let assets = vec![w(100, 0, 1, 2), w(5, 6, 7, 8)];
    let serial = w(9, 9, 9, 9);
    let note = create_p2id_note(sender, target, assets.clone(), NoteType::Private, Felt::from(3u32), serial, script(1)).unwrap();
    assert_eq!(note.assets.assets(), &assets[..]);
    assert_eq!(note.metadata.sender, sender);
    assert_eq!(note.metadata.note_type, NoteType::Private);
    assert_eq!(note.metadata.tag, NoteTag::from_account_id(target));
    assert_eq!(note.metadata.execution_hint, NoteExecutionHint::Always);
    assert_eq!(note.metadata.aux, Felt::from(3u32));
    assert_eq!(note.recipient.serial_num, serial);
    assert_eq!(note.recipient.script, script(1));
    let inputs: Vec<u64> = note.recipient.inputs.values().iter().map(|f| f.as_canonical_u64()).collect();
    assert_eq!(inputs, vec![0x77, 0x0123_4567_89AB_CD00]);

    let err = create_p2id_note(sender, target, vec![w(1, 0, 0, 0), w(1, 0, 0, 0)], NoteType::Public, Felt::from(0u32), serial, script(1)).unwrap_err();
    assert_eq!(err, NoteError::DuplicateAsset);
    let many: Vec<Word> = (0..256u32).map(|i| w(i, 0, 0, 0)).collect();
    let err = create_p2id_note(sender, target, many, NoteType::Public, Felt::from(0u32), serial, script(1)).unwrap_err();
    assert_eq!(err, NoteError::TooManyAssets);
}

#[test]
fn p2ide_note_uses_the_timelock_as_hint() {
    let sender = account(1, 2);
    let target = account(3, 4);
    let serial = w(1, 2, 3, 4);
    let note = create_p2ide_note(sender, target, vec![w(1, 0, 0, 0)], Some(10), Some(20), NoteType::Public, Felt::from(0u32), serial, script(2)).unwrap();
    assert_eq!(note.metadata.execution_hint, NoteExecutionHint::AfterBlock { block_num: 20 });
    let inputs: Vec<u64> = note.recipient.inputs.values().iter().map(|f| f.as_canonical_u64()).collect();
    assert_eq!(inputs, vec![4, 3, 10, 20]);

    let note = create_p2ide_note(sender, target, vec![], None, None, NoteType::Public, Felt::from(0u32), serial, script(2)).unwrap();
    assert_eq!(note.metadata.execution_hint, NoteExecutionHint::Always);
    let inputs: Vec<u64> = note.recipient.inputs.values().iter().map(|f| f.as_canonical_u64()).collect();
    assert_eq!(inputs, vec![4, 3, 0, 0]);

    // The timelock is checked before the assets.
    let err = create_p2ide_note(sender, target, vec![w(1, 0, 0, 0), w(1, 0, 0, 0)], None, Some(u32::MAX), NoteType::Public, Felt::from(0u32), serial, script(2)).unwrap_err();
    assert_eq!(err, NoteError::AfterBlockCannotBeU32Max);
}

#[test]
fn swap_of_an_asset_for_itself_is_refused() {
    let a = w(1, 2, 3, 4);
    let err = create_swap_note(account(1, 1), a, a, NoteType::Public, Felt::from(0u32), NoteType::Private, Felt::from(0u32), w(5, 5, 5, 5), w(6, 6, 6, 6), script(3), script(1)).unwrap_err();
    assert_eq!(err, NoteError::RequestedAssetSameAsOffered);
    assert!(err.message().contains("requested asset same as offered asset"));
}

#[test]
fn note_errors_have_messages() {
    assert_eq!(NoteError::TooManyInputs.message(), "note has too many inputs");
    assert_eq!(NoteError::TooManyAssets.message(), "note has too many assets");
    assert_eq!(NoteError::DuplicateAsset.message(), "note holds the same asset twice");
    assert_eq!(
        NoteError::AfterBlockCannotBeU32Max.message(),
        "note execution hint after block cannot use the largest block number"
    );
}

#[test]
fn swap_note_lays_out_its_inputs() {
    let sender = account(0x00FF_0000_0000_0000, 9);
    let offered = w(100, 0, 1, 2);
    let requested = w(200, 0, 3, 4);
    let payback_serial = w(5, 5, 5, 5);
    let serial = w(6, 6, 6, 6);
    let (note, payback) = create_swap_note(
        sender,
        offered,
        requested,
        NoteType::Public,
        Felt::from(11u32),
        NoteType::Private,
        Felt::from(12u32),
        payback_serial,
        serial,
        script(3),
        script(1),
    )
    .unwrap();
    assert_eq!(note.assets.assets(), &[offered]);
    assert_eq!(payback.assets.assets(), &[requested]);
    assert_eq!(note.recipient.serial_num, serial);
    assert_eq!(note.recipient.script, script(3));
    assert_eq!(payback.recipient.serial_num, payback_serial);
    assert_eq!(payback.recipient.script, script(1));
    assert_eq!(note.metadata.tag, build_swap_tag(NoteType::Public, &offered, &requested));
    assert_eq!(note.metadata.aux, Felt::from(11u32));

    // The payback recipient's digest, computed directly with RPO256.
    let payback_inputs: Vec<miden_crypto::Felt> = payback
        .recipient
        .inputs
        .values()
        .iter()
        .map(|f| miden_crypto::Felt::new(f.as_canonical_u64()))
        .collect();
    let serial_hash = Rpo256::merge(&[to_miden(&payback_serial), miden_crypto::Word::new([miden_crypto::Felt::new(0); 4])]);
    let script_hash = Rpo256::merge(&[serial_hash, to_miden(&script(1).root)]);
    let digest = Rpo256::merge(&[script_hash, Rpo256::hash_elements(&payback_inputs)]);
    assert_eq!(felts_of(&payback.recipient.digest()), felts(&digest));
    assert_ne!(felts_of(&payback.recipient.digest()), felts_of(&payback_serial));

    let inputs: Vec<u64> = note.recipient.inputs.values().iter().map(|f| f.as_canonical_u64()).collect();
    let mut expected = vec![200, 0, 3, 4];
    expected.extend(felts(&digest));
    expected.extend([1 << 32, 2, 12, NoteTag::from_account_id(sender).value as u64]);
    assert_eq!(inputs, expected);
}

#[test]
fn mint_and_burn_notes_are_public_and_tagged_with_the_faucet() {
    let faucet = account(0x0AAA_0000_0000_0000, 1);
    let sender = account(2, 2);
    let mint_inputs = NoteInputs::new(vec![Felt::from(1u32), Felt::from(2u32)]).unwrap();
    let mint = create_mint_note(faucet, sender, mint_inputs, Felt::from(0u32), w(1, 1, 1, 1), script(4)).unwrap();
    assert_eq!(mint.metadata.note_type, NoteType::Public);
    assert_eq!(mint.metadata.tag, NoteTag::from_account_id(faucet));
    assert_eq!(mint.metadata.execution_hint, NoteExecutionHint::Always);
    assert!(mint.assets.assets().is_empty());
    assert_eq!(mint.recipient.inputs.values().len(), 2);

    let asset = w(50, 0, 1, 0x0AAA_0000);
    let burn = create_burn_note(sender, faucet, asset, Felt::from(0u32), w(2, 2, 2, 2), script(5)).unwrap();
    assert_eq!(burn.metadata.note_type, NoteType::Public);
    assert_eq!(burn.metadata.tag, NoteTag::from_account_id(faucet));
    assert_eq!(burn.assets.assets(), &[asset]);
    assert!(burn.recipient.inputs.values().is_empty());
    assert_eq!(burn.recipient.script, script(5));

    let too_many: Vec<Felt> = (0..129u32).map(Felt::from).collect();
    assert_eq!(NoteInputs::new(too_many).unwrap_err(), NoteError::TooManyInputs);
}
