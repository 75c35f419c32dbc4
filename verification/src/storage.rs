//! Account storage: named slots that hold either one word or a map from words to words.

use vstd::prelude::*;

use crate::errors::AccountError;
use crate::field::{word_of_u32s, Word};
use crate::maps::{has_key, keys_distinct, lemma_map_of, map_of};

verus! {

// STORAGE SLOT NAMES
// ================================================================================================

/// The name of a storage slot.
#[derive(Debug, PartialEq, Eq)]
pub struct StorageSlotName {
    name: String,
}

impl View for StorageSlotName {
    type V = Seq<char>;

    closed spec fn view(&self) -> Seq<char> {
        self.name@
    }
}

impl Clone for StorageSlotName {
    fn clone(&self) -> (r: Self)
        ensures
            r@ == self@,
    {
        StorageSlotName { name: self.name.clone() }
    }
}

impl StorageSlotName {
    /// The slot name with the given text.
    pub fn new(name: &str) -> (r: StorageSlotName)
        ensures
            r@ == name@,
    {
        StorageSlotName { name: name.to_owned() }
    }

    /// The text of this name.
    pub fn as_str(&self) -> (r: &str)
        ensures
            r@ == self@,
    {
        self.name.as_str()
    }

    /// Whether two names have the same text.
    pub fn same_as(&self, other: &StorageSlotName) -> (r: bool)
        ensures
            r == (self@ == other@),
    {
        self.name == other.name
    }
}

// STORAGE MAPS
// ================================================================================================

/// The entries of a storage map, each word taken by its view.
pub open spec fn entry_views(entries: Seq<(Word, Word)>) -> Seq<(Seq<u64>, Seq<u64>)> {
    entries.map_values(|e: (Word, Word)| (e.0@, e.1@))
}

/// The errors of building a storage map.
#[derive(Clone, Copy, Debug, PartialEq, Eq)]
pub enum StorageMapError {
    /// Two entries with the same key.
    DuplicateKey { key: Word },
}

/// A map from words to words, kept as a list of entries whose keys are pairwise different.
#[derive(Debug, PartialEq, Eq)]
pub struct StorageMap {
    entries: Vec<(Word, Word)>,
}

impl View for StorageMap {
    type V = Map<Seq<u64>, Seq<u64>>;

    closed spec fn view(&self) -> Map<Seq<u64>, Seq<u64>> {
        map_of(entry_views(self.entries@))
    }
}

impl Clone for StorageMap {
    fn clone(&self) -> (r: Self)
        ensures
            r@ == self@,
            r.spec_entries() == self.spec_entries(),
    {
        proof {
            use_type_invariant(self);
        }
        let mut entries: Vec<(Word, Word)> = Vec::new();
        let n = self.entries.len();
        let mut i: usize = 0;
        while i < n
            invariant
                n == self.entries@.len(),
                0 <= i <= n,
                entries@ == self.entries@.take(i as int),
            decreases n - i,
        {
            entries.push(self.entries[i]);
            assert(entries@ =~= self.entries@.take(i + 1));
            i = i + 1;
        }
        assert(self.entries@.take(n as int) =~= self.entries@);
        StorageMap { entries }
    }
}

impl StorageMap {
    #[verifier::type_invariant]
    spec fn keys_are_distinct(self) -> bool {
        keys_distinct(entry_views(self.entries@))
    }

    /// The entries of the map, in the order in which they were given.
    pub closed spec fn spec_entries(self) -> Seq<(Word, Word)> {
        self.entries@
    }

    /// The empty map.
    pub fn new() -> (m: StorageMap)
        ensures
            m@ == Map::<Seq<u64>, Seq<u64>>::empty(),
            m.spec_entries() == Seq::<(Word, Word)>::empty(),
    {
        let m = StorageMap { entries: Vec::new() };
        assert(entry_views(m.entries@) =~= Seq::<(Seq<u64>, Seq<u64>)>::empty());
        m
    }

    /// The map with the given entries; fails when two entries have the same key.
    pub fn with_entries(entries: Vec<(Word, Word)>) -> (r: Result<StorageMap, StorageMapError>)
        ensures
            r is Ok <==> keys_distinct(entry_views(entries@)),
            r matches Ok(m) ==> m@ == map_of(entry_views(entries@)) && m.spec_entries()
                == entries@,
            r matches Err(StorageMapError::DuplicateKey { key }) ==> exists|i: int, j: int|
                0 <= i < j < entries@.len() && entries@[i].0@ == key@ && entries@[j].0@ == key@,
    {
        let n = entries.len();
        let ghost views = entry_views(entries@);
        let mut j: usize = 0;
        while j < n
            invariant
                n == entries@.len(),
                views == entry_views(entries@),
                0 <= j <= n,
                forall|a: int, b: int| 0 <= a < b < j ==> views[a].0 != views[b].0,
            decreases n - j,
        {
            let mut i: usize = 0;
            while i < j
                invariant
                    n == entries@.len(),
                    views == entry_views(entries@),
                    0 <= i <= j < n,
                    forall|a: int, b: int| 0 <= a < b < j ==> views[a].0 != views[b].0,
                    forall|a: int| 0 <= a < i ==> views[a].0 != views[j as int].0,
                decreases j - i,
            {
                if entries[i].0.same_as(&entries[j].0) {
                    assert(views[i as int].0 == views[j as int].0);
                    let key = entries[j].0;
                    return Err(StorageMapError::DuplicateKey { key });
                }
                i = i + 1;
            }
            j = j + 1;
        }
        Ok(StorageMap { entries })
    }

    /// The value stored under `key`, or the empty word where no entry has that key.
    pub fn get(&self, key: &Word) -> (r: Word)
        ensures
            self@.contains_key(key@) ==> r@ == self@[key@],
            !self@.contains_key(key@) ==> r@ == word_of_u32s(0, 0, 0, 0),
    {
        proof {
            use_type_invariant(self);
            lemma_map_of(entry_views(self.entries@));
        }
        let ghost views = entry_views(self.entries@);
        let n = self.entries.len();
        let mut i: usize = 0;
        while i < n
            invariant
                n == self.entries@.len(),
                views == entry_views(self.entries@),
                keys_distinct(views),
                0 <= i <= n,
                forall|a: int| 0 <= a < i ==> views[a].0 != key@,
            decreases n - i,
        {
            if self.entries[i].0.same_as(key) {
                proof {
                    lemma_map_of(views);
                    assert(views[i as int].0 == key@);
                    assert(map_of(views)[views[i as int].0] == views[i as int].1);
                }
                return self.entries[i].1;
            }
            i = i + 1;
        }
        assert(!has_key(views, key@));
        Word::empty()
    }

    /// The entries of the map, in the order in which they were given.
    pub fn entries(&self) -> (r: &Vec<(Word, Word)>)
        ensures
            r@ == self.spec_entries(),
            keys_distinct(entry_views(r@)),
            self@ == map_of(entry_views(r@)),
    {
        proof {
            use_type_invariant(self);
        }
        &self.entries
    }

    /// Whether the map has no entry.
    pub fn is_empty(&self) -> (r: bool)
        ensures
            r == (self@ == Map::<Seq<u64>, Seq<u64>>::empty()),
    {
        proof {
            use_type_invariant(self);
            lemma_map_of(entry_views(self.entries@));
        }
        let r = self.entries.len() == 0;
        proof {
            let views = entry_views(self.entries@);
            if r {
                assert(views =~= Seq::<(Seq<u64>, Seq<u64>)>::empty());
                assert(self@ =~= Map::<Seq<u64>, Seq<u64>>::empty());
            } else {
                assert(has_key(views, views[0].0));
                assert(self@.contains_key(views[0].0));
            }
        }
        r
    }

    /// The number of entries.
    pub fn num_entries(&self) -> (r: usize)
        ensures
            r == self.spec_entries().len(),
            r == self@.dom().len(),
    {
        proof {
            use_type_invariant(self);
            crate::maps::lemma_map_of_len(entry_views(self.entries@));
        }
        self.entries.len()
    }
}

// STORAGE SLOTS
// ================================================================================================

/// What a storage slot holds, each word taken by its view.
pub enum SlotContentView {
    Value(Seq<u64>),
    StorageMap(Map<Seq<u64>, Seq<u64>>),
}

/// What a storage slot holds.
#[derive(Debug, PartialEq, Eq)]
pub enum StorageSlotContent {
    Value(Word),
    StorageMap(StorageMap),
}

impl View for StorageSlotContent {
    type V = SlotContentView;

    open spec fn view(&self) -> SlotContentView {
        match self {
            StorageSlotContent::Value(w) => SlotContentView::Value(w@),
            StorageSlotContent::StorageMap(m) => SlotContentView::StorageMap(m@),
        }
    }
}

impl Clone for StorageSlotContent {
    fn clone(&self) -> (r: Self)
        ensures
            r@ == self@,
    {
        match self {
            StorageSlotContent::Value(w) => StorageSlotContent::Value(*w),
            StorageSlotContent::StorageMap(m) => StorageSlotContent::StorageMap(m.clone()),
        }
    }
}

/// A named storage slot.
#[derive(Debug, PartialEq, Eq)]
pub struct StorageSlot {
    name: StorageSlotName,
    content: StorageSlotContent,
}

impl View for StorageSlot {
    type V = (Seq<char>, SlotContentView);

    closed spec fn view(&self) -> (Seq<char>, SlotContentView) {
        (self.name@, self.content@)
    }
}

impl Clone for StorageSlot {
    fn clone(&self) -> (r: Self)
        ensures
            r@ == self@,
    {
        StorageSlot { name: self.name.clone(), content: self.content.clone() }
    }
}

impl StorageSlot {
    /// The slot with the given name that holds one word.
    pub fn with_value(name: StorageSlotName, value: Word) -> (s: StorageSlot)
        ensures
            s@ == (name@, SlotContentView::Value(value@)),
    {
        StorageSlot { name, content: StorageSlotContent::Value(value) }
    }

    /// The slot with the given name that holds a map.
    pub fn with_map(name: StorageSlotName, map: StorageMap) -> (s: StorageSlot)
        ensures
            s@ == (name@, SlotContentView::StorageMap(map@)),
    {
        StorageSlot { name, content: StorageSlotContent::StorageMap(map) }
    }

    /// The name of the slot.
    pub fn name(&self) -> (r: &StorageSlotName)
        ensures
            r@ == self@.0,
    {
        &self.name
    }

    /// What the slot holds.
    pub fn content(&self) -> (r: &StorageSlotContent)
        ensures
            r@ == self@.1,
    {
        &self.content
    }
}

// ACCOUNT STORAGE
// ================================================================================================

/// The slots of a sequence, each taken by its view.
pub open spec fn slot_views(slots: Seq<StorageSlot>) -> Seq<(Seq<char>, SlotContentView)> {
    slots.map_values(|s: StorageSlot| s@)
}

/// The storage of an account: storage slots whose names are pairwise different.
#[derive(Debug, PartialEq, Eq)]
pub struct AccountStorage {
    slots: Vec<StorageSlot>,
}

impl View for AccountStorage {
    type V = Map<Seq<char>, SlotContentView>;

    /// What each slot holds, by slot name.
    closed spec fn view(&self) -> Map<Seq<char>, SlotContentView> {
        map_of(slot_views(self.slots@))
    }
}

impl Clone for AccountStorage {
    fn clone(&self) -> (r: Self)
        ensures
            r@ == self@,
            slot_views(r.spec_slots()) == slot_views(self.spec_slots()),
    {
        proof {
            use_type_invariant(self);
        }
        let mut slots: Vec<StorageSlot> = Vec::new();
        let n = self.slots.len();
        let mut i: usize = 0;
        while i < n
            invariant
                n == self.slots@.len(),
                0 <= i <= n,
                slots@.len() == i,
                slot_views(slots@) == slot_views(self.slots@).take(i as int),
            decreases n - i,
        {
            let slot = self.slots[i].clone();
            let ghost before = slots@;
            slots.push(slot);
            assert forall|j: int| 0 <= j < i + 1 implies #[trigger] slot_views(slots@)[j]
                == slot_views(self.slots@).take(i + 1)[j] by {
                if j < i {
                    assert(slots@[j] == before[j]);
                    assert(slot_views(before)[j] == slot_views(self.slots@).take(i as int)[j]);
                }
            }
            assert(slot_views(slots@) =~= slot_views(self.slots@).take(i + 1));
            i = i + 1;
        }
        assert(slot_views(self.slots@).take(n as int) =~= slot_views(self.slots@));
        AccountStorage { slots }
    }
}

impl AccountStorage {
    #[verifier::type_invariant]
    spec fn names_are_distinct(self) -> bool {
        keys_distinct(slot_views(self.slots@))
    }

    /// The slots of the storage, in the order in which they were given.
    pub closed spec fn spec_slots(self) -> Seq<StorageSlot> {
        self.slots@
    }

    /// The storage made of the given slots; fails when two slots have the same name.
    pub fn new(slots: Vec<StorageSlot>) -> (r: Result<AccountStorage, AccountError>)
        ensures
            r is Ok <==> keys_distinct(slot_views(slots@)),
            r matches Ok(s) ==> s@ == map_of(slot_views(slots@)) && s.spec_slots() == slots@,
            r matches Err(e) ==> e == AccountError::DuplicateStorageSlotName,
    {
        let n = slots.len();
        let ghost views = slot_views(slots@);
        let mut j: usize = 0;
        while j < n
            invariant
                n == slots@.len(),
                views == slot_views(slots@),
                0 <= j <= n,
                forall|a: int, b: int| 0 <= a < b < j ==> views[a].0 != views[b].0,
            decreases n - j,
        {
            let mut i: usize = 0;
            while i < j
                invariant
                    n == slots@.len(),
                    views == slot_views(slots@),
                    0 <= i <= j < n,
                    forall|a: int, b: int| 0 <= a < b < j ==> views[a].0 != views[b].0,
                    forall|a: int| 0 <= a < i ==> views[a].0 != views[j as int].0,
                decreases j - i,
            {
                if slots[i].name().same_as(slots[j].name()) {
                    assert(views[i as int].0 == views[j as int].0);
                    return Err(AccountError::DuplicateStorageSlotName);
                }
                i = i + 1;
            }
            j = j + 1;
        }
        Ok(AccountStorage { slots })
    }

    /// The slots of the storage.
    pub fn slots(&self) -> (r: &Vec<StorageSlot>)
        ensures
            r@ == self.spec_slots(),
            self@ == map_of(slot_views(r@)),
            keys_distinct(slot_views(r@)),
    {
        proof {
            use_type_invariant(self);
        }
        &self.slots
    }

    /// The slot with the given name, if there is one.
    pub fn find_slot(&self, name: &StorageSlotName) -> (r: Option<&StorageSlot>)
        ensures
            r is None <==> !self@.contains_key(name@),
            r matches Some(s) ==> s@.0 == name@ && s@.1 == self@[name@],
    {
        proof {
            use_type_invariant(self);
            lemma_map_of(slot_views(self.slots@));
        }
        let ghost views = slot_views(self.slots@);
        let n = self.slots.len();
        let mut i: usize = 0;
        while i < n
            invariant
                n == self.slots@.len(),
                views == slot_views(self.slots@),
                keys_distinct(views),
                0 <= i <= n,
                forall|a: int| 0 <= a < i ==> views[a].0 != name@,
            decreases n - i,
        {
            if self.slots[i].name().same_as(name) {
                proof {
                    lemma_map_of(views);
                    assert(views[i as int].0 == name@);
                    assert(map_of(views)[views[i as int].0] == views[i as int].1);
                    assert(has_key(views, name@));
                }
                return Some(&self.slots[i]);
            }
            i = i + 1;
        }
        assert(!has_key(views, name@));
        None
    }

    /// The word held by the value slot with the given name.
    pub fn get_item(&self, name: &StorageSlotName) -> (r: Result<Word, AccountError>)
        ensures
            match self@.get(name@) {
                None => r == Err::<Word, AccountError>(AccountError::StorageSlotNameNotFound),
                Some(SlotContentView::Value(w)) => r matches Ok(v) && v@ == w,
                Some(SlotContentView::StorageMap(_)) => r == Err::<Word, AccountError>(
                    AccountError::StorageSlotNotValue,
                ),
            },
    {
        match self.find_slot(name) {
            None => Err(AccountError::StorageSlotNameNotFound),
            Some(slot) => match slot.content() {
                StorageSlotContent::Value(w) => Ok(*w),
                StorageSlotContent::StorageMap(_) => Err(AccountError::StorageSlotNotValue),
            },
        }
    }

    /// The word stored under `key` in the map slot with the given name; the empty word where
    /// the map has no such key.
    pub fn get_map_item(&self, name: &StorageSlotName, key: Word) -> (r: Result<
        Word,
        AccountError,
    >)
        ensures
            match self@.get(name@) {
                None => r == Err::<Word, AccountError>(AccountError::StorageSlotNameNotFound),
                Some(SlotContentView::Value(_)) => r == Err::<Word, AccountError>(
                    AccountError::StorageSlotNotMap,
                ),
                Some(SlotContentView::StorageMap(m)) => r matches Ok(v) && (if m.contains_key(key@) {
                    v@ == m[key@]
                } else {
                    v@ == word_of_u32s(0, 0, 0, 0)
                }),
            },
    {
        match self.find_slot(name) {
            None => Err(AccountError::StorageSlotNameNotFound),
            Some(slot) => match slot.content() {
                StorageSlotContent::Value(_) => Err(AccountError::StorageSlotNotMap),
                StorageSlotContent::StorageMap(m) => Ok(m.get(&key)),
            },
        }
    }
}

} // verus!
