//! Authentication schemes available to standard and faucet accounts.

use vstd::prelude::*;

use crate::account::PublicKeyCommitment;

verus! {

/// Defines authentication schemes available to standard and faucet accounts.
pub enum AuthScheme {
    /// A minimal authentication scheme that provides no cryptographic authentication.
    ///
    /// It only increments the nonce if the account state has actually changed during transaction
    /// execution.
    NoAuth,
    /// A single-key authentication scheme which relies on ECDSA signatures.
    EcdsaK256Keccak { pub_key: PublicKeyCommitment },
    /// A multi-signature authentication scheme using ECDSA signatures.
    ///
    /// Requires a threshold number of signatures from the provided public keys.
    EcdsaK256KeccakMultisig { threshold: u32, pub_keys: Vec<PublicKeyCommitment> },
    /// A single-key authentication scheme which relies on RPO Falcon512 signatures.
    RpoFalcon512 { pub_key: PublicKeyCommitment },
    /// A multi-signature authentication scheme using RPO Falcon512 signatures.
    ///
    /// Requires a threshold number of signatures from the provided public keys.
    RpoFalcon512Multisig { threshold: u32, pub_keys: Vec<PublicKeyCommitment> },
    /// A multi-signature authentication scheme with spending limits.
    ///
    /// Requires a threshold number of signatures from the provided public keys.
    MultisigSpendingLimits { threshold: u32, pub_keys: Vec<PublicKeyCommitment> },
    /// A non-standard authentication scheme.
    Unknown,
}

impl AuthScheme {
    /// The public key commitments of the scheme: none for the schemes without keys, the one key
    /// of a single-key scheme, and all keys of a multisig scheme in their order.
    pub open spec fn spec_public_key_commitments(&self) -> Seq<PublicKeyCommitment> {
        match self {
            AuthScheme::NoAuth => Seq::empty(),
            AuthScheme::EcdsaK256Keccak { pub_key } => seq![*pub_key],
            AuthScheme::EcdsaK256KeccakMultisig { pub_keys, .. } => pub_keys@,
            AuthScheme::RpoFalcon512 { pub_key } => seq![*pub_key],
            AuthScheme::RpoFalcon512Multisig { pub_keys, .. } => pub_keys@,
            AuthScheme::MultisigSpendingLimits { pub_keys, .. } => pub_keys@,
            AuthScheme::Unknown => Seq::empty(),
        }
    }

    /// Returns all public key commitments associated with this authentication scheme.
    ///
    /// For unknown schemes, an empty vector is returned.
    pub fn get_public_key_commitments(&self) -> (r: Vec<PublicKeyCommitment>)
        ensures
            r@ == self.spec_public_key_commitments(),
    {
        match self {
            AuthScheme::NoAuth => Vec::new(),
            AuthScheme::EcdsaK256Keccak { pub_key } => vec![*pub_key],
            AuthScheme::EcdsaK256KeccakMultisig { pub_keys, .. } => copy_commitments(pub_keys),
            AuthScheme::RpoFalcon512 { pub_key } => vec![*pub_key],
            AuthScheme::RpoFalcon512Multisig { pub_keys, .. } => copy_commitments(pub_keys),
            AuthScheme::MultisigSpendingLimits { pub_keys, .. } => copy_commitments(pub_keys),
            AuthScheme::Unknown => Vec::new(),
        }
    }
}

/// A copy of a list of commitments.
fn copy_commitments(keys: &Vec<PublicKeyCommitment>) -> (r: Vec<PublicKeyCommitment>)
    ensures
        r@ == keys@,
{
    let r = keys.clone();
    assert(r@ =~= keys@);
    r
}

} // verus!
