use miden_standards::{AuthScheme, PublicKeyCommitment, Word};

fn key(v: u32) -> PublicKeyCommitment {
    PublicKeyCommitment::from(Word::from([v, 0, 0, 0]))
}

#[test]
fn schemes_without_keys_have_no_commitments() {
    assert!(AuthScheme::NoAuth.get_public_key_commitments().is_empty());
    assert!(AuthScheme::Unknown.get_public_key_commitments().is_empty());
}

#[test]
fn single_key_schemes_have_their_key() {
    assert_eq!(AuthScheme::EcdsaK256Keccak { pub_key: key(1) }.get_public_key_commitments(), vec![key(1)]);
    assert_eq!(AuthScheme::RpoFalcon512 { pub_key: key(2) }.get_public_key_commitments(), vec![key(2)]);
}

#[test]
fn multisig_schemes_have_all_their_keys_in_order() {
    let keys = vec![key(3), key(1), key(2)];
    let schemes = [
        AuthScheme::EcdsaK256KeccakMultisig { threshold: 2, pub_keys: keys.clone() },
        AuthScheme::RpoFalcon512Multisig { threshold: 2, pub_keys: keys.clone() },
        AuthScheme::MultisigSpendingLimits { threshold: 2, pub_keys: keys.clone() },
    ];
    for scheme in schemes.iter() {
        assert_eq!(scheme.get_public_key_commitments(), keys);
    }
}
