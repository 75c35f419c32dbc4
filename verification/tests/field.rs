use miden_standards::{Felt, PublicKeyCommitment, Word, FELT_MODULUS};

#[test]
fn felt_new_reduces_modulo_the_field_order() {
    assert_eq!(Felt::new(5).as_canonical_u64(), 5);
    assert_eq!(Felt::new(FELT_MODULUS - 1).as_canonical_u64(), 0xffff_ffff_0000_0000);
    assert_eq!(Felt::new(FELT_MODULUS).as_canonical_u64(), 0);
    assert_eq!(Felt::new(u64::MAX).as_canonical_u64(), 0xffff_fffe);
}

#[test]
fn felt_order_is_the_goldilocks_order() {
    assert_eq!(FELT_MODULUS, miden_crypto::Felt::ORDER);
    for v in [0u64, 1, 0xffff_ffff, FELT_MODULUS - 1, FELT_MODULUS, u64::MAX] {
        assert_eq!(Felt::new(v).as_canonical_u64(), miden_crypto::Felt::new(v).as_canonical_u64());
    }
}

#[test]
fn words_from_u32s_match_miden_words() {
    let values = [0u32, 7, 0xdeadbeef, u32::MAX];
    let ours = Word::from(values);
    let theirs = miden_crypto::Word::from(values);
    for i in 0..4 {
        assert_eq!(ours.get(i).as_canonical_u64(), theirs.as_elements()[i].as_canonical_u64());
    }
}

#[test]
fn words_from_integers_and_elements_agree() {
    let a = Word::from([1u32, 2, 3, 0xffff_ffff]);
    let b = Word::from([Felt::from(1u32), Felt::from(2u32), Felt::from(3u32), Felt::from(0xffff_ffffu32)]);
    assert_eq!(a, b);
    assert!(a.same_as(&b));
    assert_eq!(a.get(3).as_canonical_u64(), 0xffff_ffff);
    assert!(!a.same_as(&Word::empty()));
    assert_eq!(Word::new(a.as_elements()), a);
}

#[test]
fn commitment_round_trips_through_its_word() {
    let w = Word::from([4u32, 3, 2, 1]);
    let p = PublicKeyCommitment::from(w);
    assert_eq!(Word::from(p), w);
    assert!(p.same_as(&PublicKeyCommitment::new(w)));
}
