//! Accounts, account identifiers, public key commitments and account components.

use vstd::prelude::*;

use crate::field::{Felt, Word, FELT_MODULUS};
use crate::storage::{slot_views, AccountStorage, SlotContentView, StorageSlot};

verus! {

// PUBLIC KEY COMMITMENTS
// ================================================================================================

/// The commitment to a public key: a word.
#[derive(Clone, Copy, Debug, PartialEq, Eq, PartialOrd, Ord, Hash)]
pub struct PublicKeyCommitment(Word);

impl View for PublicKeyCommitment {
    type V = Seq<u64>;

    /// The view of the committed word.
    closed spec fn view(&self) -> Seq<u64> {
        self.0@
    }
}

/// The commitments of a sequence, each taken by its view.
pub open spec fn commitment_views(s: Seq<PublicKeyCommitment>) -> Seq<Seq<u64>> {
    s.map_values(|p: PublicKeyCommitment| p@)
}

impl PublicKeyCommitment {
    /// The commitment that is the given word.
    pub fn new(word: Word) -> (p: PublicKeyCommitment)
        ensures
            p@ == word@,
    {
        PublicKeyCommitment(word)
    }

    /// The committed word.
    pub fn as_word(&self) -> (w: Word)
        ensures
            w@ == self@,
    {
        self.0
    }

    /// Whether two commitments are the same word.
    pub fn same_as(&self, other: &PublicKeyCommitment) -> (r: bool)
        ensures
            r == (self@ == other@),
    {
        self.0.same_as(&other.0)
    }
}

impl From<Word> for PublicKeyCommitment {
    fn from(word: Word) -> (p: PublicKeyCommitment)
        ensures
            p@ == word@,
    {
        PublicKeyCommitment(word)
    }
}

impl vstd::std_specs::convert::FromSpecImpl<Word> for PublicKeyCommitment {
    open spec fn obeys_from_spec() -> bool {
        true
    }

    closed spec fn from_spec(v: Word) -> PublicKeyCommitment {
        PublicKeyCommitment(v)
    }
}

impl From<PublicKeyCommitment> for Word {
    fn from(commitment: PublicKeyCommitment) -> (w: Word)
        ensures
            w@ == commitment@,
    {
        commitment.0
    }
}

impl vstd::std_specs::convert::FromSpecImpl<PublicKeyCommitment> for Word {
    open spec fn obeys_from_spec() -> bool {
        true
    }

    closed spec fn from_spec(v: PublicKeyCommitment) -> Word {
        v.0
    }
}

// ACCOUNTS
// ================================================================================================

/// The identifier of an account.
#[derive(Clone, Copy, Debug, PartialEq, Eq, Structural, Hash)]
pub struct AccountId {
    pub value: u128,
}

impl AccountId {
    /// The identifier with the given value.
    pub fn new(value: u128) -> (id: AccountId)
        ensures
            id.value == value,
    {
        AccountId { value }
    }

    /// The prefix of the identifier: its high 64 bits.
    pub open spec fn spec_prefix(self) -> u64 {
        (self.value >> 64u128) as u64
    }

    /// The suffix of the identifier: its low 64 bits.
    pub open spec fn spec_suffix(self) -> u64 {
        self.value as u64
    }

    /// The prefix of the identifier as a field element.
    pub fn prefix(&self) -> (f: Felt)
        ensures
            f@ == self.spec_prefix() % FELT_MODULUS,
    {
        Felt::new((self.value >> 64u128) as u64)
    }

    /// The suffix of the identifier as a field element.
    pub fn suffix(&self) -> (f: Felt)
        ensures
            f@ == self.spec_suffix() % FELT_MODULUS,
    {
        Felt::new(self.value as u64)
    }
}

/// Whether the network may read an account's state.
#[derive(Clone, Copy, Debug, PartialEq, Eq, Structural, Hash)]
pub enum AccountStorageMode {
    Public,
    Private,
}

/// An account: its identifier, its storage mode and its storage.
#[derive(Debug, PartialEq, Eq)]
pub struct Account {
    pub id: AccountId,
    pub storage_mode: AccountStorageMode,
    pub storage: AccountStorage,
}

impl Clone for Account {
    fn clone(&self) -> (r: Self)
        ensures
            r.id == self.id,
            r.storage_mode == self.storage_mode,
            r.storage@ == self.storage@,
            slot_views(r.storage.spec_slots()) == slot_views(self.storage.spec_slots()),
    {
        Account { id: self.id, storage_mode: self.storage_mode, storage: self.storage.clone() }
    }
}

impl Account {
    /// The account with the given parts.
    pub fn new(id: AccountId, storage_mode: AccountStorageMode, storage: AccountStorage) -> (a:
        Account)
        ensures
            a == (Account { id, storage_mode, storage }),
    {
        Account { id, storage_mode, storage }
    }

    /// The identifier of the account.
    pub fn id(&self) -> (r: AccountId)
        ensures
            r == self.id,
    {
        self.id
    }

    /// The storage of the account.
    pub fn storage(&self) -> (r: &AccountStorage)
        ensures
            r == &self.storage,
    {
        &self.storage
    }

    /// Whether the account's state is public.
    pub fn is_public(&self) -> (r: bool)
        ensures
            r == (self.storage_mode == AccountStorageMode::Public),
    {
        match self.storage_mode {
            AccountStorageMode::Public => true,
            AccountStorageMode::Private => false,
        }
    }
}

// ACCOUNT COMPONENTS
// ================================================================================================

/// The code library that an account component is built on, named; the compiled library itself
/// is not held here.
#[derive(Clone, Copy, Debug, PartialEq, Eq, Structural)]
pub enum ComponentLibrary {
    /// The library of the multisig authentication component with spending limits.
    MultisigSpendingLimits,
}

/// An account component: the library it is built on, the slots that it adds to an account's
/// storage, and whether it supports every account type.
#[derive(Debug, PartialEq, Eq)]
pub struct AccountComponent {
    pub library: ComponentLibrary,
    pub storage_slots: Vec<StorageSlot>,
    pub supports_all_types: bool,
}

impl AccountComponent {
    /// The component's storage slots, each taken by its view.
    pub open spec fn slot_views(&self) -> Seq<(Seq<char>, SlotContentView)> {
        slot_views(self.storage_slots@)
    }

    /// The storage slots of the component.
    pub fn storage_slots(&self) -> (r: &Vec<StorageSlot>)
        ensures
            r@ == self.storage_slots@,
    {
        &self.storage_slots
    }
}

} // verus!
