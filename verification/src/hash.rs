//! The RPO256 hash of field elements and of pairs of words.

use vstd::prelude::*;

use crate::field::{Felt, Word};

verus! {

/// The field elements of a sequence, each taken by its view.
pub open spec fn felt_views(s: Seq<Felt>) -> Seq<u64> {
    s.map_values(|f: Felt| f@)
}

/// The RPO256 hash of a sequence of field elements (canonical values).
pub uninterp spec fn rpo256_hash_elements_of(elements: Seq<u64>) -> Seq<u64>;

/// The RPO256 hash of two words (canonical values), the first on the left.
pub uninterp spec fn rpo256_merge_of(left: Seq<u64>, right: Seq<u64>) -> Seq<u64>;

/// Calls `miden_crypto::hash::rpo::Rpo256::hash_elements`. The contract claims only that the
/// result is a function of the elements' values, named `rpo256_hash_elements_of`.
#[verifier::external_body]
pub(crate) fn rpo256_hash_elements(elements: &[Felt]) -> (r: Word)
    ensures
        r@ == rpo256_hash_elements_of(felt_views(elements@)),
{
    let felts: Vec<miden_crypto::Felt> =
        elements.iter().map(|f| miden_crypto::Felt::new(f.as_canonical_u64())).collect();
    let digest = miden_crypto::hash::rpo::Rpo256::hash_elements(&felts);
    let e = digest.as_elements();
    Word::new([
        Felt::from_canonical(e[0].as_canonical_u64()),
        Felt::from_canonical(e[1].as_canonical_u64()),
        Felt::from_canonical(e[2].as_canonical_u64()),
        Felt::from_canonical(e[3].as_canonical_u64()),
    ])
}

/// Calls `miden_crypto::hash::rpo::Rpo256::merge` on `[left, right]`. The contract claims only
/// that the result is a function of the two words' values, named `rpo256_merge_of`.
#[verifier::external_body]
pub(crate) fn rpo256_merge(left: &Word, right: &Word) -> (r: Word)
    ensures
        r@ == rpo256_merge_of(left@, right@),
{
    let l = left.as_elements().map(|f| miden_crypto::Felt::new(f.as_canonical_u64()));
    let r = right.as_elements().map(|f| miden_crypto::Felt::new(f.as_canonical_u64()));
    let digest = miden_crypto::hash::rpo::Rpo256::merge(&[miden_crypto::Word::new(l), miden_crypto::Word::new(r)]);
    let e = digest.as_elements();
    Word::new([
        Felt::from_canonical(e[0].as_canonical_u64()),
        Felt::from_canonical(e[1].as_canonical_u64()),
        Felt::from_canonical(e[2].as_canonical_u64()),
        Felt::from_canonical(e[3].as_canonical_u64()),
    ])
}

} // verus!
