//! Network accounts: public accounts whose storage holds a non-empty allowlist of note scripts.

use vstd::prelude::*;

use crate::account::{Account, AccountId, AccountStorageMode};
use crate::field::Word;
use crate::maps::{has_key, lemma_map_of};
use crate::storage::{entry_views, slot_views, AccountStorage, SlotContentView, StorageSlotContent, StorageSlotName};

verus! {

// NOTE SCRIPT ROOTS
// ================================================================================================

/// The root of a note script: a word.
#[derive(Clone, Copy, Debug, PartialEq, Eq, PartialOrd, Ord, Hash)]
pub struct NoteScriptRoot(Word);

impl View for NoteScriptRoot {
    type V = Seq<u64>;

    closed spec fn view(&self) -> Seq<u64> {
        self.0@
    }
}

/// The roots of a sequence, each taken by its view.
pub open spec fn root_views(s: Seq<NoteScriptRoot>) -> Seq<Seq<u64>> {
    s.map_values(|r: NoteScriptRoot| r@)
}

impl NoteScriptRoot {
    /// The root that is the given word.
    pub fn from_word(word: Word) -> (r: NoteScriptRoot)
        ensures
            r@ == word@,
    {
        NoteScriptRoot(word)
    }

    /// The root whose elements stand for the given `u32` values.
    pub fn from_array(values: [u32; 4]) -> (r: NoteScriptRoot)
        ensures
            r@ == crate::field::word_of_u32s(values@[0], values@[1], values@[2], values@[3]),
    {
        NoteScriptRoot(Word::from_u32s(values))
    }

    /// The word of the root.
    pub fn as_word(&self) -> (w: Word)
        ensures
            w@ == self@,
    {
        self.0
    }
}

// NOTE ALLOWLIST
// ================================================================================================

/// The name of the storage slot that holds the allowlist of note script roots.
pub open spec fn note_allowlist_slot_name() -> Seq<char> {
    "miden::standards::auth::network_account::note_allowlist"@
}

/// Why an account is not a network account.
#[derive(Clone, Copy, Debug, PartialEq, Eq, Structural)]
pub enum NetworkAccountNoteAllowlistError {
    /// The account is not public.
    AccountNotPublic(AccountId),
    /// The storage has no allowlist slot.
    SlotNotFound,
    /// The allowlist slot holds a value, not a map.
    SlotNotMap,
    /// The allowlist map has no entry.
    EmptyAllowlist,
}

/// The allowed note script roots that a storage holds: the keys of the map in the allowlist
/// slot, where there is such a slot, it holds a map, and the map is not empty.
pub open spec fn allowlist_of(storage: Map<Seq<char>, SlotContentView>) -> Result<
    Set<Seq<u64>>,
    NetworkAccountNoteAllowlistError,
> {
    match storage.get(note_allowlist_slot_name()) {
        None => Err(NetworkAccountNoteAllowlistError::SlotNotFound),
        Some(SlotContentView::Value(_)) => Err(NetworkAccountNoteAllowlistError::SlotNotMap),
        Some(SlotContentView::StorageMap(m)) => if m == Map::<Seq<u64>, Seq<u64>>::empty() {
            Err(NetworkAccountNoteAllowlistError::EmptyAllowlist)
        } else {
            Ok(m.dom())
        },
    }
}

/// The note script roots that a network account accepts: a non-empty list without repeats.
#[derive(Debug, PartialEq, Eq)]
pub struct NetworkAccountNoteAllowlist {
    allowed_script_roots: Vec<NoteScriptRoot>,
}

impl View for NetworkAccountNoteAllowlist {
    type V = Set<Seq<u64>>;

    closed spec fn view(&self) -> Set<Seq<u64>> {
        root_views(self.allowed_script_roots@).to_set()
    }
}

impl Clone for NetworkAccountNoteAllowlist {
    fn clone(&self) -> (r: Self)
        ensures
            r@ == self@,
    {
        proof {
            use_type_invariant(self);
        }
        let roots = self.allowed_script_roots.clone();
        assert(roots@ =~= self.allowed_script_roots@);
        NetworkAccountNoteAllowlist { allowed_script_roots: roots }
    }
}

impl NetworkAccountNoteAllowlist {
    #[verifier::type_invariant]
    spec fn roots_are_distinct(self) -> bool {
        root_views(self.allowed_script_roots@).no_duplicates()
    }

    /// The name of the storage slot that holds the allowlist.
    pub fn slot_name() -> (r: StorageSlotName)
        ensures
            r@ == note_allowlist_slot_name(),
    {
        StorageSlotName::new("miden::standards::auth::network_account::note_allowlist")
    }

    /// Reads the allowlist from account storage: the slot must be present, hold a map, and the
    /// map must not be empty; the allowed roots are the map's keys.
    pub fn try_from(storage: &AccountStorage) -> (r: Result<
        NetworkAccountNoteAllowlist,
        NetworkAccountNoteAllowlistError,
    >)
        ensures
            match allowlist_of(storage@) {
                Err(e) => r == Err::<NetworkAccountNoteAllowlist, NetworkAccountNoteAllowlistError>(
                    e,
                ),
                Ok(roots) => r matches Ok(a) && a@ == roots,
            },
    {
        let name = NetworkAccountNoteAllowlist::slot_name();
        match storage.find_slot(&name) {
            None => Err(NetworkAccountNoteAllowlistError::SlotNotFound),
            Some(slot) => match slot.content() {
                StorageSlotContent::Value(_) => Err(NetworkAccountNoteAllowlistError::SlotNotMap),
                StorageSlotContent::StorageMap(m) => {
                    if m.is_empty() {
                        return Err(NetworkAccountNoteAllowlistError::EmptyAllowlist);
                    }
                    let entries = m.entries();
                    let ghost views = entry_views(entries@);
                    let n = entries.len();
                    let mut roots: Vec<NoteScriptRoot> = Vec::new();
                    let mut i: usize = 0;
                    while i < n
                        invariant
                            n == entries@.len(),
                            views == entry_views(entries@),
                            0 <= i <= n,
                            roots@.len() == i,
                            forall|j: int| 0 <= j < i ==> #[trigger] roots@[j]@ == views[j].0,
                        decreases n - i,
                    {
                        roots.push(NoteScriptRoot(entries[i].0));
                        i = i + 1;
                    }
                    proof {
                        lemma_map_of(views);
                        let rv = root_views(roots@);
                        assert forall|a: int, b: int|
                            0 <= a < rv.len() && 0 <= b < rv.len() && a != b implies rv[a]
                            != rv[b] by {
                            if a < b {
                                assert(views[a].0 != views[b].0);
                            } else {
                                assert(views[b].0 != views[a].0);
                            }
                        }
                        assert forall|k: Seq<u64>| rv.to_set().contains(k) <==> m@.dom().contains(
                            k,
                        ) by {
                            if m@.contains_key(k) {
                                assert(has_key(views, k));
                                let j = choose|j: int| 0 <= j < views.len() && views[j].0 == k;
                                assert(rv[j] == k);
                            }
                            if rv.to_set().contains(k) {
                                let j = choose|j: int| 0 <= j < rv.len() && rv[j] == k;
                                assert(views[j].0 == k);
                            }
                        }
                        assert(rv.to_set() =~= m@.dom());
                    }
                    Ok(NetworkAccountNoteAllowlist { allowed_script_roots: roots })
                },
            },
        }
    }

    /// The allowed note script roots, without repeats.
    pub fn allowed_script_roots(&self) -> (r: &[NoteScriptRoot])
        ensures
            root_views(r@).to_set() == self@,
            root_views(r@).no_duplicates(),
    {
        proof {
            use_type_invariant(self);
        }
        self.allowed_script_roots.as_slice()
    }
}

// NETWORK ACCOUNT
// ================================================================================================

/// An account is a network account if and only if it is public and its storage holds a valid
/// note allowlist: the allowlist slot is present, holds a map, and the map is not empty.
pub open spec fn is_network_account(account: Account) -> bool {
    &&& account.storage_mode == AccountStorageMode::Public
    &&& allowlist_of(account.storage@) is Ok
}

/// A wrapper around an [`Account`] that is guaranteed to be a network account.
///
/// The account's type is unconstrained: regular accounts and faucets may both be network
/// accounts.
#[derive(Debug, PartialEq, Eq)]
pub struct NetworkAccount {
    account: Account,
    allowlist: NetworkAccountNoteAllowlist,
}

impl Clone for NetworkAccount {
    fn clone(&self) -> (r: Self)
        ensures
            r.spec_account().id == self.spec_account().id,
            r.spec_account().storage_mode == self.spec_account().storage_mode,
            r.spec_account().storage@ == self.spec_account().storage@,
            slot_views(r.spec_account().storage.spec_slots()) == slot_views(
                self.spec_account().storage.spec_slots(),
            ),
            r.spec_allowlist() == self.spec_allowlist(),
    {
        proof {
            use_type_invariant(self);
        }
        NetworkAccount { account: self.account.clone(), allowlist: self.allowlist.clone() }
    }
}

impl NetworkAccount {
    #[verifier::type_invariant]
    spec fn is_network(self) -> bool {
        &&& is_network_account(self.account)
        &&& allowlist_of(self.account.storage@) == Ok::<
            Set<Seq<u64>>,
            NetworkAccountNoteAllowlistError,
        >(self.allowlist@)
    }

    /// The underlying account.
    pub closed spec fn spec_account(&self) -> Account {
        self.account
    }

    /// The allowed note script roots of the underlying account.
    pub closed spec fn spec_allowlist(&self) -> Set<Seq<u64>> {
        self.allowlist@
    }

    /// Attempts to construct a [`NetworkAccount`] from `account`.
    ///
    /// Returns an error if the account is not public, or if its storage does not hold a valid
    /// note allowlist.
    pub fn new(account: Account) -> (r: Result<Self, NetworkAccountNoteAllowlistError>)
        ensures
            r is Ok <==> is_network_account(account),
            account.storage_mode != AccountStorageMode::Public ==> r == Err::<
                Self,
                NetworkAccountNoteAllowlistError,
            >(NetworkAccountNoteAllowlistError::AccountNotPublic(account.id)),
            account.storage_mode == AccountStorageMode::Public ==> match allowlist_of(
                account.storage@,
            ) {
                Err(e) => r == Err::<Self, NetworkAccountNoteAllowlistError>(e),
                Ok(roots) => r matches Ok(n) && n.spec_account() == account && n.spec_allowlist()
                    == roots,
            },
    {
        if !account.is_public() {
            return Err(NetworkAccountNoteAllowlistError::AccountNotPublic(account.id()));
        }
        let allowlist = NetworkAccountNoteAllowlist::try_from(account.storage())?;
        Ok(NetworkAccount { account, allowlist })
    }

    /// Consumes `self` and returns the underlying [`Account`].
    pub fn into_account(self) -> (r: Account)
        ensures
            r == self.spec_account(),
            is_network_account(r),
    {
        proof {
            use_type_invariant(&self);
        }
        self.account
    }

    /// Returns a reference to the underlying [`Account`].
    pub fn as_account(&self) -> (r: &Account)
        ensures
            *r == self.spec_account(),
            is_network_account(*r),
    {
        proof {
            use_type_invariant(self);
        }
        &self.account
    }

    /// Returns the identifier of the underlying account.
    pub fn id(&self) -> (r: AccountId)
        ensures
            r == self.spec_account().id,
    {
        self.account.id()
    }

    /// Returns the storage of the underlying account.
    pub fn storage(&self) -> (r: &AccountStorage)
        ensures
            *r == self.spec_account().storage,
    {
        self.account.storage()
    }

    /// Returns the note allowlist read from the underlying account's storage.
    pub fn allowlist(&self) -> (r: &NetworkAccountNoteAllowlist)
        ensures
            r@ == self.spec_allowlist(),
            allowlist_of(self.spec_account().storage@) == Ok::<
                Set<Seq<u64>>,
                NetworkAccountNoteAllowlistError,
            >(r@),
    {
        proof {
            use_type_invariant(self);
        }
        &self.allowlist
    }
}

/// The conversion is not claimed to be a spec function of the account: its contract is the one
/// stated on `try_from` below, the same as that of [`NetworkAccount::new`].
impl vstd::std_specs::convert::TryFromSpecImpl<Account> for NetworkAccount {
    open spec fn obeys_try_from_spec() -> bool {
        false
    }

    open spec fn try_from_spec(v: Account) -> Result<Self, NetworkAccountNoteAllowlistError> {
        vstd::pervasive::arbitrary()
    }
}

impl TryFrom<Account> for NetworkAccount {
    type Error = NetworkAccountNoteAllowlistError;

    fn try_from(account: Account) -> (r: Result<Self, Self::Error>)
        ensures
            r is Ok <==> is_network_account(account),
            account.storage_mode != AccountStorageMode::Public ==> r == Err::<
                Self,
                NetworkAccountNoteAllowlistError,
            >(NetworkAccountNoteAllowlistError::AccountNotPublic(account.id)),
            account.storage_mode == AccountStorageMode::Public ==> match allowlist_of(
                account.storage@,
            ) {
                Err(e) => r == Err::<Self, NetworkAccountNoteAllowlistError>(e),
                Ok(roots) => r matches Ok(n) && n.spec_account() == account && n.spec_allowlist()
                    == roots,
            },
    {
        Self::new(account)
    }
}

} // verus!
