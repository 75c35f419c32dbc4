//! Notes and the standard note constructors: pay-to-id (P2ID), pay-to-id with reclaim and
//! timelock (P2IDE), SWAP, MINT and BURN.
//!
//! The constructors take the serial numbers that a caller has drawn, and the scripts of the
//! well-known notes, whose compiled roots a caller supplies.

use vstd::prelude::*;

use crate::account::AccountId;
use crate::field::{word_of_u32s, Felt, Word, FELT_MODULUS};
use crate::hash::{felt_views, rpo256_hash_elements, rpo256_hash_elements_of, rpo256_merge, rpo256_merge_of};

verus! {

// NOTE ERRORS
// ================================================================================================

/// Errors raised while building notes.
#[derive(Clone, Copy, Debug, PartialEq, Eq, Structural)]
pub enum NoteError {
    /// A swap that would exchange an asset for itself.
    RequestedAssetSameAsOffered,
    /// More inputs than a note may hold.
    TooManyInputs,
    /// More assets than a note may hold.
    TooManyAssets,
    /// The same asset twice in a note.
    DuplicateAsset,
    /// An "after block" execution hint for the largest block number, which is reserved.
    AfterBlockCannotBeU32Max,
}

/// The text that describes a [`NoteError`].
pub open spec fn note_error_message(e: NoteError) -> Seq<char> {
    match e {
        NoteError::RequestedAssetSameAsOffered => "requested asset same as offered asset"@,
        NoteError::TooManyInputs => "note has too many inputs"@,
        NoteError::TooManyAssets => "note has too many assets"@,
        NoteError::DuplicateAsset => "note holds the same asset twice"@,
        NoteError::AfterBlockCannotBeU32Max =>
            "note execution hint after block cannot use the largest block number"@,
    }
}

impl NoteError {
    /// The text that describes this error.
    pub fn message(&self) -> (r: String)
        ensures
            r@ == note_error_message(*self),
    {
        match self {
            NoteError::RequestedAssetSameAsOffered =>
                "requested asset same as offered asset".to_owned(),
            NoteError::TooManyInputs => "note has too many inputs".to_owned(),
            NoteError::TooManyAssets => "note has too many assets".to_owned(),
            NoteError::DuplicateAsset => "note holds the same asset twice".to_owned(),
            NoteError::AfterBlockCannotBeU32Max =>
                "note execution hint after block cannot use the largest block number".to_owned(),
        }
    }
}

// NOTE TYPE, EXECUTION HINT, TAG
// ================================================================================================

/// Whether a note's details are public.
#[derive(Clone, Copy, Debug, PartialEq, Eq, Structural, Hash)]
pub enum NoteType {
    Public,
    Private,
}

impl NoteType {
    /// The field value of the note type: 1 for public notes, 2 for private ones.
    pub open spec fn spec_value(self) -> u64 {
        match self {
            NoteType::Public => 1,
            NoteType::Private => 2,
        }
    }

    /// The field element of the note type.
    pub fn to_felt(self) -> (f: Felt)
        ensures
            f@ == self.spec_value(),
    {
        match self {
            NoteType::Public => Felt::from_u32(1),
            NoteType::Private => Felt::from_u32(2),
        }
    }
}

/// When a note may be consumed.
#[derive(Clone, Copy, Debug, PartialEq, Eq, Structural, Hash)]
pub enum NoteExecutionHint {
    /// At any time.
    Always,
    /// Once the chain has passed the given block.
    AfterBlock { block_num: u32 },
}

impl NoteExecutionHint {
    /// The field value of the hint: its tag (1 for `Always`, 2 for `AfterBlock`) in the high 32
    /// bits and its payload (the block number) in the low 32 bits.
    pub open spec fn spec_value(self) -> u64 {
        match self {
            NoteExecutionHint::Always => 0x1_0000_0000,
            NoteExecutionHint::AfterBlock { block_num } => (0x2_0000_0000 + block_num as u64) as u64,
        }
    }

    /// The hint that a note may be consumed at any time.
    pub fn always() -> (h: NoteExecutionHint)
        ensures
            h == NoteExecutionHint::Always,
    {
        NoteExecutionHint::Always
    }

    /// The hint that a note may be consumed after the given block; fails for the largest block
    /// number.
    pub fn after_block(block_num: u32) -> (r: Result<NoteExecutionHint, NoteError>)
        ensures
            block_num == u32::MAX ==> r == Err::<NoteExecutionHint, NoteError>(
                NoteError::AfterBlockCannotBeU32Max,
            ),
            block_num != u32::MAX ==> r == Ok::<NoteExecutionHint, NoteError>(
                NoteExecutionHint::AfterBlock { block_num },
            ),
    {
        if block_num == u32::MAX {
            Err(NoteError::AfterBlockCannotBeU32Max)
        } else {
            Ok(NoteExecutionHint::AfterBlock { block_num })
        }
    }

    /// The field element of the hint.
    pub fn to_felt(self) -> (f: Felt)
        ensures
            f@ == self.spec_value(),
    {
        match self {
            NoteExecutionHint::Always => Felt::new(0x1_0000_0000),
            NoteExecutionHint::AfterBlock { block_num } => Felt::new(
                0x2_0000_0000 + block_num as u64,
            ),
        }
    }
}

/// The field value of an execution hint carries its tag (1 for `Always`, 2 for `AfterBlock`) in
/// the bits above the low 32 and its payload (zero, or the block number) in the low 32 bits.
pub proof fn lemma_execution_hint_layout(hint: NoteExecutionHint)
    ensures
        hint.spec_value() / 0x1_0000_0000 == (match hint {
            NoteExecutionHint::Always => 1int,
            NoteExecutionHint::AfterBlock { .. } => 2int,
        }),
        hint.spec_value() % 0x1_0000_0000 == (match hint {
            NoteExecutionHint::Always => 0int,
            NoteExecutionHint::AfterBlock { block_num } => block_num as int,
        }),
{
}

/// The tag of a note that targets an account: the two high bits set (local execution, any note
/// type), then the top 14 of the 30 high bits of the account's prefix.
pub open spec fn account_tag_value(id: AccountId) -> u32 {
    0xC000_0000u32 | (((id.spec_prefix() >> 34u64) as u32) & 0xFFFF_0000u32)
}

/// The tag of a SWAP note: the swap use case (zero) with the top eight bits of the offered and
/// the requested assets' faucet prefixes (each word's last element) as payload; public notes use
/// the public use case tag (`0b10` high bits), others the local one (`0b11`).
pub open spec fn swap_tag_value(note_type: NoteType, offered: Seq<u64>, requested: Seq<u64>) -> u32 {
    let payload = ((((offered[3] >> 52u64) as u8) as u32) << 8u32) | (((requested[3]
        >> 52u64) as u8) as u32);
    match note_type {
        NoteType::Public => 0x8000_0000u32 | payload,
        NoteType::Private => 0xC000_0000u32 | payload,
    }
}

/// A best-effort filter by which notes are routed to their consumers.
#[derive(Clone, Copy, Debug, PartialEq, Eq, Structural, Hash)]
pub struct NoteTag {
    pub value: u32,
}

/// Every tag of a note that targets an account has its two high bits set (local execution, any
/// note type) and its low 16 bits clear.
pub proof fn lemma_account_tag_layout(id: AccountId)
    ensures
        account_tag_value(id) >> 30u32 == 3u32,
        account_tag_value(id) & 0xFFFFu32 == 0u32,
{
    let h: u32 = ((id.spec_prefix() >> 34u64) as u32);
    assert((0xC000_0000u32 | (h & 0xFFFF_0000u32)) >> 30u32 == 3u32 && (0xC000_0000u32 | (h
        & 0xFFFF_0000u32)) & 0xFFFFu32 == 0u32) by (bit_vector);
}

impl NoteTag {
    /// The tag of notes that target the given account.
    pub open spec fn spec_from_account_id(id: AccountId) -> NoteTag {
        NoteTag { value: account_tag_value(id) }
    }

    /// The tag of notes that target the given account.
    pub fn from_account_id(id: AccountId) -> (t: NoteTag)
        ensures
            t.value == account_tag_value(id),
            t.value >> 30u32 == 3u32,
            t.value & 0xFFFFu32 == 0u32,
    {
        proof {
            lemma_account_tag_layout(id);
        }
        NoteTag { value: 0xC000_0000u32 | (((((id.value >> 64u128) as u64) >> 34u64) as u32) & 0xFFFF_0000u32) }
    }

    /// The field element of the tag.
    pub fn to_felt(self) -> (f: Felt)
        ensures
            f@ == self.value as u64,
    {
        Felt::from_u32(self.value)
    }
}

/// The layout of a SWAP tag: its low 16 bits are the offered asset's faucet byte (the top eight
/// bits of the word's last element) followed by the requested asset's, whatever the note type;
/// its two high bits are `0b10` for public notes and `0b11` for private ones.
pub proof fn lemma_swap_tag_layout(note_type: NoteType, offered: Seq<u64>, requested: Seq<u64>)
    ensures
        swap_tag_value(note_type, offered, requested) & 0xFFFFu32 == ((((offered[3] >> 52u64)
            as u8) as u32) << 8u32) | (((requested[3] >> 52u64) as u8) as u32),
        swap_tag_value(note_type, offered, requested) >> 30u32 == (if note_type
            == NoteType::Public {
            2u32
        } else {
            3u32
        }),
        swap_tag_value(NoteType::Public, offered, requested) & 0xFFFFu32 == swap_tag_value(
            NoteType::Private,
            offered,
            requested,
        ) & 0xFFFFu32,
{
    let a: u32 = ((offered[3] >> 52u64) as u8) as u32;
    let b: u32 = ((requested[3] >> 52u64) as u8) as u32;
    assert(a < 256u32 && b < 256u32);
    assert(((0x8000_0000u32 | ((a << 8u32) | b)) & 0xFFFFu32 == (a << 8u32) | b) && ((0x8000_0000u32
        | ((a << 8u32) | b)) >> 30u32 == 2u32) && ((0xC000_0000u32 | ((a << 8u32) | b))
        & 0xFFFFu32 == (a << 8u32) | b) && ((0xC000_0000u32 | ((a << 8u32) | b)) >> 30u32
        == 3u32)) by (bit_vector)
        requires
            a < 256u32,
            b < 256u32,
    ;
}

/// Builds the tag of a SWAP note from its type and the offered and requested assets.
pub fn build_swap_tag(note_type: NoteType, offered_asset: &Word, requested_asset: &Word) -> (t:
    NoteTag)
    ensures
        t.value == swap_tag_value(note_type, offered_asset@, requested_asset@),
        t.value & 0xFFFFu32 == ((((offered_asset@[3] >> 52u64) as u8) as u32) << 8u32) | (((
        requested_asset@[3] >> 52u64) as u8) as u32),
        t.value >> 30u32 == (if note_type == NoteType::Public {
            2u32
        } else {
            3u32
        }),
{
    proof {
        lemma_swap_tag_layout(note_type, offered_asset@, requested_asset@);
    }
    let offered = offered_asset.get(3).as_canonical_u64();
    let requested = requested_asset.get(3).as_canonical_u64();
    let payload = ((((offered >> 52u64) as u8) as u32) << 8u32) | (((requested >> 52u64) as u8) as u32);
    match note_type {
        NoteType::Public => NoteTag { value: 0x8000_0000u32 | payload },
        NoteType::Private => NoteTag { value: 0xC000_0000u32 | payload },
    }
}

// NOTE INPUTS, ASSETS, SCRIPTS, RECIPIENTS
// ================================================================================================

/// The most inputs a note may hold.
pub const MAX_INPUTS_PER_NOTE: usize = 128;

/// The most assets a note may hold.
pub const MAX_ASSETS_PER_NOTE: usize = 255;

/// The inputs of a note: at most `MAX_INPUTS_PER_NOTE` field elements.
#[derive(Debug, PartialEq, Eq)]
pub struct NoteInputs {
    values: Vec<Felt>,
}

impl View for NoteInputs {
    type V = Seq<u64>;

    closed spec fn view(&self) -> Seq<u64> {
        felt_views(self.values@)
    }
}

impl NoteInputs {
    #[verifier::type_invariant]
    spec fn bounded(self) -> bool {
        self.values@.len() <= MAX_INPUTS_PER_NOTE
    }

    /// The inputs made of the given values; fails when there are too many.
    pub fn new(values: Vec<Felt>) -> (r: Result<NoteInputs, NoteError>)
        ensures
            values@.len() > MAX_INPUTS_PER_NOTE ==> r == Err::<NoteInputs, NoteError>(
                NoteError::TooManyInputs,
            ),
            values@.len() <= MAX_INPUTS_PER_NOTE ==> (r matches Ok(i) && i@ == felt_views(values@)),
    {
        if values.len() > MAX_INPUTS_PER_NOTE {
            Err(NoteError::TooManyInputs)
        } else {
            Ok(NoteInputs { values })
        }
    }

    /// The input values.
    pub fn values(&self) -> (r: &[Felt])
        ensures
            felt_views(r@) == self@,
    {
        self.values.as_slice()
    }

    /// The commitment to the inputs: the RPO256 hash of the values.
    pub fn commitment(&self) -> (w: Word)
        ensures
            w@ == rpo256_hash_elements_of(self@),
    {
        rpo256_hash_elements(self.values.as_slice())
    }
}

/// The assets of a sequence, each taken by its view.
pub open spec fn asset_views(s: Seq<Word>) -> Seq<Seq<u64>> {
    s.map_values(|w: Word| w@)
}

/// The error that building note assets from these assets raises, if any.
pub open spec fn note_assets_error(assets: Seq<Seq<u64>>) -> Option<NoteError> {
    if assets.len() > MAX_ASSETS_PER_NOTE {
        Some(NoteError::TooManyAssets)
    } else if !assets.no_duplicates() {
        Some(NoteError::DuplicateAsset)
    } else {
        None
    }
}

/// When note assets are refused: with more than `MAX_ASSETS_PER_NOTE` assets first, then when
/// some two assets, at any two positions, are the same; and they are accepted exactly when
/// neither holds.
pub proof fn lemma_note_assets_error_cases(assets: Seq<Seq<u64>>)
    ensures
        assets.len() > MAX_ASSETS_PER_NOTE ==> note_assets_error(assets) == Some(
            NoteError::TooManyAssets,
        ),
        (assets.len() <= MAX_ASSETS_PER_NOTE && exists|i: int, j: int|
            0 <= i < j < assets.len() && assets[i] == assets[j]) ==> note_assets_error(assets)
            == Some(NoteError::DuplicateAsset),
        note_assets_error(assets) is None <==> (assets.len() <= MAX_ASSETS_PER_NOTE && forall|
            i: int,
            j: int,
        | 0 <= i < j < assets.len() ==> assets[i] != assets[j]),
{
    if exists|i: int, j: int| 0 <= i < j < assets.len() && assets[i] == assets[j] {
        let (i, j) = choose|i: int, j: int| 0 <= i < j < assets.len() && assets[i] == assets[j];
        assert(!assets.no_duplicates());
    }
    if forall|i: int, j: int| 0 <= i < j < assets.len() ==> assets[i] != assets[j] {
        assert forall|a: int, b: int|
            0 <= a < assets.len() && 0 <= b < assets.len() && a != b implies assets[a]
            != assets[b] by {
            if a > b {
                assert(assets[b] != assets[a]);
            }
        }
    }
}

/// Some two assets of the list, at any two positions, are the same word.
pub open spec fn has_repeated_asset(assets: Seq<Word>) -> bool {
    exists|i: int, j: int| 0 <= i < j < assets.len() && assets[i]@ == assets[j]@
}

/// Every two assets of the list, at any two positions, are different words.
pub open spec fn assets_pairwise_distinct(assets: Seq<Word>) -> bool {
    forall|i: int, j: int| 0 <= i < j < assets.len() ==> assets[i]@ != assets[j]@
}

/// The facts of `lemma_note_assets_error_cases`, stated of the words themselves.
proof fn lemma_note_assets_error_of_words(assets: Seq<Word>)
    ensures
        (assets.len() <= MAX_ASSETS_PER_NOTE && has_repeated_asset(assets)) ==> note_assets_error(
            asset_views(assets),
        ) == Some(NoteError::DuplicateAsset),
        note_assets_error(asset_views(assets)) is None ==> assets.len() <= MAX_ASSETS_PER_NOTE
            && assets_pairwise_distinct(assets),
{
    let v = asset_views(assets);
    lemma_note_assets_error_cases(v);
    if has_repeated_asset(assets) {
        let (i, j) = choose|i: int, j: int| 0 <= i < j < assets.len() && assets[i]@ == assets[j]@;
        assert(v[i] == v[j]);
    }
    if note_assets_error(v) is None {
        assert forall|i: int, j: int| 0 <= i < j < assets.len() implies assets[i]@ != assets[j]@ by {
            assert(v[i] == assets[i]@ && v[j] == assets[j]@);
        }
    }
}

/// The assets of a note: at most `MAX_ASSETS_PER_NOTE` asset words, none twice.
#[derive(Debug, PartialEq, Eq)]
pub struct NoteAssets {
    assets: Vec<Word>,
}

impl View for NoteAssets {
    type V = Seq<Seq<u64>>;

    closed spec fn view(&self) -> Seq<Seq<u64>> {
        asset_views(self.assets@)
    }
}

impl NoteAssets {
    #[verifier::type_invariant]
    spec fn well_formed(self) -> bool {
        note_assets_error(asset_views(self.assets@)) is None
    }

    /// The note assets made of the given assets; fails when there are too many or one repeats.
    pub fn new(assets: Vec<Word>) -> (r: Result<NoteAssets, NoteError>)
        ensures
            match note_assets_error(asset_views(assets@)) {
                Some(e) => r == Err::<NoteAssets, NoteError>(e),
                None => r matches Ok(a) && a@ == asset_views(assets@),
            },
            r is Ok ==> assets@.len() <= MAX_ASSETS_PER_NOTE && assets_pairwise_distinct(assets@),
            (assets@.len() <= MAX_ASSETS_PER_NOTE && has_repeated_asset(assets@)) ==> r == Err::<
                NoteAssets,
                NoteError,
            >(NoteError::DuplicateAsset),
    {
        proof {
            lemma_note_assets_error_of_words(assets@);
        }
        if assets.len() > MAX_ASSETS_PER_NOTE {
            return Err(NoteError::TooManyAssets);
        }
        let ghost views = asset_views(assets@);
        let n = assets.len();
        let mut j: usize = 0;
        while j < n
            invariant
                n == assets@.len(),
                n <= MAX_ASSETS_PER_NOTE,
                views == asset_views(assets@),
                0 <= j <= n,
                forall|a: int, b: int| 0 <= a < b < j ==> views[a] != views[b],
            decreases n - j,
        {
            let mut i: usize = 0;
            while i < j
                invariant
                    n == assets@.len(),
                    n <= MAX_ASSETS_PER_NOTE,
                    views == asset_views(assets@),
                    0 <= i <= j < n,
                    forall|a: int, b: int| 0 <= a < b < j ==> views[a] != views[b],
                    forall|a: int| 0 <= a < i ==> views[a] != views[j as int],
                decreases j - i,
            {
                if assets[i].same_as(&assets[j]) {
                    assert(views[i as int] == views[j as int]);
                    assert(!views.no_duplicates());
                    return Err(NoteError::DuplicateAsset);
                }
                i = i + 1;
            }
            j = j + 1;
        }
        assert(views.no_duplicates()) by {
            assert forall|a: int, b: int|
                0 <= a < views.len() && 0 <= b < views.len() && a != b implies views[a]
                != views[b] by {
                if a > b {
                    assert(views[b] != views[a]);
                }
            }
        }
        Ok(NoteAssets { assets })
    }

    /// The assets, in their order.
    pub fn assets(&self) -> (r: &[Word])
        ensures
            asset_views(r@) == self@,
    {
        self.assets.as_slice()
    }
}

/// The script of a note, known by its root.
#[derive(Clone, Copy, Debug, PartialEq, Eq, Hash)]
pub struct NoteScript {
    pub root: Word,
}

impl NoteScript {
    /// The script with the given root.
    pub fn new(root: Word) -> (s: NoteScript)
        ensures
            s.root == root,
    {
        NoteScript { root }
    }
}

/// The digest of a recipient:
/// `merge(merge(merge(serial_num, [0, 0, 0, 0]), script_root), commitment(inputs))`.
pub open spec fn recipient_digest(serial_num: Seq<u64>, script_root: Seq<u64>, inputs: Seq<u64>) -> Seq<
    u64,
> {
    rpo256_merge_of(
        rpo256_merge_of(rpo256_merge_of(serial_num, word_of_u32s(0, 0, 0, 0)), script_root),
        rpo256_hash_elements_of(inputs),
    )
}

/// Who may consume a note: whoever knows the serial number and can run the script with the
/// inputs.
#[derive(Debug, PartialEq, Eq)]
pub struct NoteRecipient {
    pub serial_num: Word,
    pub script: NoteScript,
    pub inputs: NoteInputs,
}

impl NoteRecipient {
    /// The recipient with the given parts.
    pub fn new(serial_num: Word, script: NoteScript, inputs: NoteInputs) -> (r: NoteRecipient)
        ensures
            r == (NoteRecipient { serial_num, script, inputs }),
    {
        NoteRecipient { serial_num, script, inputs }
    }

    /// The digest of the recipient.
    pub open spec fn spec_digest(&self) -> Seq<u64> {
        recipient_digest(self.serial_num@, self.script.root@, self.inputs@)
    }

    /// The digest of the recipient.
    pub fn digest(&self) -> (w: Word)
        ensures
            w@ == self.spec_digest(),
    {
        let serial_hash = rpo256_merge(&self.serial_num, &Word::empty());
        let script_hash = rpo256_merge(&serial_hash, &self.script.root);
        let commitment = self.inputs.commitment();
        rpo256_merge(&script_hash, &commitment)
    }
}

// NOTES
// ================================================================================================

/// The metadata of a note.
#[derive(Clone, Copy, Debug, PartialEq, Eq)]
pub struct NoteMetadata {
    pub sender: AccountId,
    pub note_type: NoteType,
    pub tag: NoteTag,
    pub execution_hint: NoteExecutionHint,
    pub aux: Felt,
}

/// A note: its assets, metadata and recipient.
#[derive(Debug, PartialEq, Eq)]
pub struct Note {
    pub assets: NoteAssets,
    pub metadata: NoteMetadata,
    pub recipient: NoteRecipient,
}

/// The details of a note that the metadata does not hold: its assets and recipient.
#[derive(Debug, PartialEq, Eq)]
pub struct NoteDetails {
    pub assets: NoteAssets,
    pub recipient: NoteRecipient,
}

/// The inputs of a P2ID note for a target account: `[suffix, prefix]`.
pub open spec fn p2id_inputs(target: AccountId) -> Seq<u64> {
    seq![target.spec_suffix() % FELT_MODULUS, target.spec_prefix() % FELT_MODULUS]
}

/// The inputs of a P2IDE note: `[suffix, prefix, reclaim height, timelock height]`, a missing
/// height taken as zero.
pub open spec fn p2ide_inputs(target: AccountId, reclaim: Option<u32>, timelock: Option<u32>) -> Seq<u64> {
    seq![
        target.spec_suffix() % FELT_MODULUS,
        target.spec_prefix() % FELT_MODULUS,
        match reclaim { Some(h) => h as u64, None => 0 },
        match timelock { Some(h) => h as u64, None => 0 },
    ]
}

/// The P2IDE inputs hold the target's suffix and prefix, then the reclaim height, then the
/// timelock height: the reclaim height alone decides the third input and the timelock height
/// alone the fourth, a missing height giving zero.
pub proof fn lemma_p2ide_inputs_positions(
    target: AccountId,
    reclaim_a: Option<u32>,
    reclaim_b: Option<u32>,
    timelock_a: Option<u32>,
    timelock_b: Option<u32>,
)
    ensures
        p2ide_inputs(target, reclaim_a, timelock_a).len() == 4,
        p2ide_inputs(target, reclaim_a, timelock_a)[0] == target.spec_suffix() % FELT_MODULUS,
        p2ide_inputs(target, reclaim_a, timelock_a)[1] == target.spec_prefix() % FELT_MODULUS,
        p2ide_inputs(target, reclaim_a, timelock_a)[2] == p2ide_inputs(
            target,
            reclaim_a,
            timelock_b,
        )[2],
        p2ide_inputs(target, reclaim_a, timelock_a)[3] == p2ide_inputs(
            target,
            reclaim_b,
            timelock_a,
        )[3],
        p2ide_inputs(target, None, timelock_a)[2] == 0,
        p2ide_inputs(target, reclaim_a, None)[3] == 0,
        forall|h: u32| reclaim_a == Some(h) ==> p2ide_inputs(target, reclaim_a, timelock_a)[2] == h,
        forall|h: u32| timelock_a == Some(h) ==> p2ide_inputs(target, reclaim_a, timelock_a)[3] == h,
{
}

/// The inputs of a SWAP note: the requested asset, the payback recipient's digest, the "always"
/// execution hint, the payback note's type, its aux value, and the payback tag (that of the
/// sender).
pub open spec fn swap_note_inputs(
    requested_asset: Seq<u64>,
    payback_recipient_digest: Seq<u64>,
    payback_note_type: NoteType,
    payback_note_aux: u64,
    sender: AccountId,
) -> Seq<u64> {
    requested_asset + payback_recipient_digest + seq![
        NoteExecutionHint::Always.spec_value(),
        payback_note_type.spec_value(),
        payback_note_aux,
        account_tag_value(sender) as u64,
    ]
}

/// Builds the recipient of a P2ID note for `target`.
pub fn build_p2id_recipient(target: AccountId, serial_num: Word, p2id_script: NoteScript) -> (r:
    NoteRecipient)
    ensures
        r.serial_num == serial_num,
        r.script == p2id_script,
        r.inputs@ == p2id_inputs(target),
{
    let values = vec![target.suffix(), target.prefix()];
    let inputs = match NoteInputs::new(values) {
        Ok(i) => i,
        Err(_) => {
            proof {
                assert(false);
            }
            return NoteRecipient::new(serial_num, p2id_script, NoteInputs { values: Vec::new() });
        },
    };
    assert(inputs@ =~= p2id_inputs(target));
    NoteRecipient::new(serial_num, p2id_script, inputs)
}

/// Builds the recipient of a P2IDE note for `target`, with optional reclaim and timelock heights.
pub fn build_p2ide_recipient(
    target: AccountId,
    reclaim_height: Option<u32>,
    timelock_height: Option<u32>,
    serial_num: Word,
    p2ide_script: NoteScript,
) -> (r: NoteRecipient)
    ensures
        r.serial_num == serial_num,
        r.script == p2ide_script,
        r.inputs@ == p2ide_inputs(target, reclaim_height, timelock_height),
        r.inputs@.len() == 4,
        r.inputs@[2] == (match reclaim_height {
            Some(h) => h as u64,
            None => 0,
        }),
        r.inputs@[3] == (match timelock_height {
            Some(h) => h as u64,
            None => 0,
        }),
{
    let reclaim = match reclaim_height {
        Some(h) => Felt::from_u32(h),
        None => Felt::from_u32(0),
    };
    let timelock = match timelock_height {
        Some(h) => Felt::from_u32(h),
        None => Felt::from_u32(0),
    };
    let values = vec![target.suffix(), target.prefix(), reclaim, timelock];
    let inputs = match NoteInputs::new(values) {
        Ok(i) => i,
        Err(_) => {
            proof {
                assert(false);
            }
            return NoteRecipient::new(serial_num, p2ide_script, NoteInputs { values: Vec::new() });
        },
    };
    assert(inputs@ =~= p2ide_inputs(target, reclaim_height, timelock_height));
    NoteRecipient::new(serial_num, p2ide_script, inputs)
}

/// The note assets of a single asset.
fn single_asset(asset: Word) -> (a: NoteAssets)
    ensures
        a@ == seq![asset@],
{
    let assets = vec![asset];
    assert(asset_views(assets@) =~= seq![asset@]);
    match NoteAssets::new(assets) {
        Ok(a) => a,
        Err(_) => {
            proof {
                assert(false);
            }
            NoteAssets { assets: Vec::new() }
        },
    }
}

/// The empty note inputs.
fn no_inputs() -> (i: NoteInputs)
    ensures
        i@ == Seq::<u64>::empty(),
{
    let i = NoteInputs { values: Vec::new() };
    assert(i@ =~= Seq::<u64>::empty());
    i
}

/// The execution hint of a P2IDE note: after the timelock height where there is one, otherwise
/// always.
pub open spec fn p2ide_execution_hint(timelock_height: Option<u32>) -> NoteExecutionHint {
    match timelock_height {
        Some(h) => NoteExecutionHint::AfterBlock { block_num: h },
        None => NoteExecutionHint::Always,
    }
}

/// Generates a P2ID note: a transfer of `assets` from `sender` to `target`.
///
/// `serial_num` is the note's serial number; the note's tag is that of the target.
pub fn create_p2id_note(
    sender: AccountId,
    target: AccountId,
    assets: Vec<Word>,
    note_type: NoteType,
    aux: Felt,
    serial_num: Word,
    p2id_script: NoteScript,
) -> (r: Result<Note, NoteError>)
    ensures
        match note_assets_error(asset_views(assets@)) {
            Some(e) => r == Err::<Note, NoteError>(e),
            None => r matches Ok(n) && n.assets@ == asset_views(assets@) && n.metadata == (
            NoteMetadata {
                sender,
                note_type,
                tag: NoteTag { value: account_tag_value(target) },
                execution_hint: NoteExecutionHint::Always,
                aux,
            }) && n.recipient.serial_num == serial_num && n.recipient.script == p2id_script
                && n.recipient.inputs@ == p2id_inputs(target),
        },
        r is Ok ==> assets@.len() <= MAX_ASSETS_PER_NOTE && assets_pairwise_distinct(assets@),
        (assets@.len() <= MAX_ASSETS_PER_NOTE && has_repeated_asset(assets@)) ==> r == Err::<
            Note,
            NoteError,
        >(NoteError::DuplicateAsset),
{
    proof {
        lemma_note_assets_error_of_words(assets@);
    }
    let recipient = build_p2id_recipient(target, serial_num, p2id_script);
    let tag = NoteTag::from_account_id(target);
    let metadata = NoteMetadata {
        sender,
        note_type,
        tag,
        execution_hint: NoteExecutionHint::always(),
        aux,
    };
    let vault = NoteAssets::new(assets)?;
    Ok(Note { assets: vault, metadata, recipient })
}

/// Generates a P2IDE note: a transfer of `assets` from `sender` to `target` that the sender may
/// reclaim after `reclaim_height` and the target may consume only after `timelock_height`, each
/// where given.
///
/// `serial_num` is the note's serial number; the note's tag is that of the target.
pub fn create_p2ide_note(
    sender: AccountId,
    target: AccountId,
    assets: Vec<Word>,
    reclaim_height: Option<u32>,
    timelock_height: Option<u32>,
    note_type: NoteType,
    aux: Felt,
    serial_num: Word,
    p2ide_script: NoteScript,
) -> (r: Result<Note, NoteError>)
    ensures
        timelock_height == Some(u32::MAX) ==> r == Err::<Note, NoteError>(
            NoteError::AfterBlockCannotBeU32Max,
        ),
        timelock_height != Some(u32::MAX) ==> match note_assets_error(asset_views(assets@)) {
            Some(e) => r == Err::<Note, NoteError>(e),
            None => r matches Ok(n) && n.assets@ == asset_views(assets@) && n.metadata == (
            NoteMetadata {
                sender,
                note_type,
                tag: NoteTag { value: account_tag_value(target) },
                execution_hint: p2ide_execution_hint(timelock_height),
                aux,
            }) && n.recipient.serial_num == serial_num && n.recipient.script == p2ide_script
                && n.recipient.inputs@ == p2ide_inputs(target, reclaim_height, timelock_height),
        },
        r is Ok ==> assets@.len() <= MAX_ASSETS_PER_NOTE && assets_pairwise_distinct(assets@),
        r matches Ok(n) ==> n.recipient.inputs@.len() == 4 && n.recipient.inputs@[2] == (
        match reclaim_height {
            Some(h) => h as u64,
            None => 0,
        }) && n.recipient.inputs@[3] == (match timelock_height {
            Some(h) => h as u64,
            None => 0,
        }) && (timelock_height is None ==> n.metadata.execution_hint == NoteExecutionHint::Always),
        (timelock_height != Some(u32::MAX) && assets@.len() <= MAX_ASSETS_PER_NOTE
            && has_repeated_asset(assets@)) ==> r == Err::<Note, NoteError>(NoteError::DuplicateAsset),
{
    proof {
        lemma_note_assets_error_of_words(assets@);
    }
    let recipient = build_p2ide_recipient(
        target,
        reclaim_height,
        timelock_height,
        serial_num,
        p2ide_script,
    );
    let tag = NoteTag::from_account_id(target);
    let execution_hint = match timelock_height {
        Some(height) => NoteExecutionHint::after_block(height)?,
        None => NoteExecutionHint::always(),
    };
    let metadata = NoteMetadata { sender, note_type, tag, execution_hint, aux };
    let vault = NoteAssets::new(assets)?;
    Ok(Note { assets: vault, metadata, recipient })
}

/// Generates a SWAP note and the details of its payback note.
///
/// The consumer of the SWAP note receives `offered_asset` and creates a P2ID note to `sender`
/// holding `requested_asset`. `payback_serial_num` is the payback note's serial number and
/// `serial_num` the SWAP note's. Fails when the two assets are the same.
pub fn create_swap_note(
    sender: AccountId,
    offered_asset: Word,
    requested_asset: Word,
    swap_note_type: NoteType,
    swap_note_aux: Felt,
    payback_note_type: NoteType,
    payback_note_aux: Felt,
    payback_serial_num: Word,
    serial_num: Word,
    swap_script: NoteScript,
    p2id_script: NoteScript,
) -> (r: Result<(Note, NoteDetails), NoteError>)
    ensures
        offered_asset@ == requested_asset@ ==> r == Err::<(Note, NoteDetails), NoteError>(
            NoteError::RequestedAssetSameAsOffered,
        ),
        offered_asset@ == requested_asset@ ==> (r matches Err(e) && note_error_message(e)
            == "requested asset same as offered asset"@),
        offered_asset@ != requested_asset@ ==> (r matches Ok((n, p)) && n.assets@ == seq![
            offered_asset@,
        ] && p.assets@ == seq![requested_asset@] && n.recipient.serial_num == serial_num
            && n.recipient.script == swap_script && n.recipient.inputs@ == swap_note_inputs(
            requested_asset@,
            p.recipient.spec_digest(),
            payback_note_type,
            payback_note_aux@,
            sender,
        ) && n.metadata == (NoteMetadata {
            sender,
            note_type: swap_note_type,
            tag: NoteTag {
                value: swap_tag_value(swap_note_type, offered_asset@, requested_asset@),
            },
            execution_hint: NoteExecutionHint::Always,
            aux: swap_note_aux,
        }) && p.recipient.serial_num == payback_serial_num && p.recipient.script == p2id_script
            && p.recipient.inputs@ == p2id_inputs(sender)),
        r matches Ok((n, p)) ==> n.recipient.inputs@.len() == 12 && n.recipient.inputs@.subrange(
            0,
            4,
        ) == requested_asset@ && n.recipient.inputs@.subrange(4, 8) == p.recipient.spec_digest()
            && n.recipient.inputs@[8] == 0x1_0000_0000 && n.recipient.inputs@[9]
            == payback_note_type.spec_value() && n.recipient.inputs@[10] == payback_note_aux@
            && n.recipient.inputs@[11] == NoteTag::spec_from_account_id(sender).value as u64,
        r matches Ok((n, p)) ==> n.metadata.tag.value & 0xFFFFu32 == ((((offered_asset@[3] >> 52u64)
            as u8) as u32) << 8u32) | (((requested_asset@[3] >> 52u64) as u8) as u32),
{
    proof {
        lemma_swap_tag_layout(swap_note_type, offered_asset@, requested_asset@);
        Word::lemma_len(requested_asset);
    }
    if requested_asset.same_as(&offered_asset) {
        return Err(NoteError::RequestedAssetSameAsOffered);
    }
    let payback_recipient = build_p2id_recipient(sender, payback_serial_num, p2id_script);
    let payback_recipient_word = payback_recipient.digest();
    let payback_tag = NoteTag::from_account_id(sender);
    let values = vec![
        requested_asset.get(0),
        requested_asset.get(1),
        requested_asset.get(2),
        requested_asset.get(3),
        payback_recipient_word.get(0),
        payback_recipient_word.get(1),
        payback_recipient_word.get(2),
        payback_recipient_word.get(3),
        NoteExecutionHint::always().to_felt(),
        payback_note_type.to_felt(),
        payback_note_aux,
        payback_tag.to_felt(),
    ];
    proof {
        Word::lemma_len(requested_asset);
        Word::lemma_len(payback_recipient_word);
    }
    assert(felt_views(values@) =~= swap_note_inputs(
        requested_asset@,
        payback_recipient.spec_digest(),
        payback_note_type,
        payback_note_aux@,
        sender,
    ));
    let inputs = match NoteInputs::new(values) {
        Ok(i) => i,
        Err(_) => {
            proof {
                assert(false);
            }
            no_inputs()
        },
    };
    // build the tag for the SWAP use case
    let tag = build_swap_tag(swap_note_type, &offered_asset, &requested_asset);
    // build the outgoing note
    let metadata = NoteMetadata {
        sender,
        note_type: swap_note_type,
        tag,
        execution_hint: NoteExecutionHint::always(),
        aux: swap_note_aux,
    };
    let assets = single_asset(offered_asset);
    let recipient = NoteRecipient::new(serial_num, swap_script, inputs);
    let note = Note { assets, metadata, recipient };
    // build the payback note details
    let payback_note = NoteDetails {
        assets: single_asset(requested_asset),
        recipient: payback_recipient,
    };
    Ok((note, payback_note))
}

/// Generates a MINT note: a public note that instructs the network faucet `faucet_id` to mint
/// fungible assets as `mint_inputs` describe. It holds no assets, is always executable, and is
/// tagged with the faucet.
pub fn create_mint_note(
    faucet_id: AccountId,
    sender: AccountId,
    mint_inputs: NoteInputs,
    aux: Felt,
    serial_num: Word,
    mint_script: NoteScript,
) -> (r: Result<Note, NoteError>)
    ensures
        r matches Ok(n) && n.assets@ == Seq::<Seq<u64>>::empty() && n.metadata == (NoteMetadata {
            sender,
            note_type: NoteType::Public,
            tag: NoteTag { value: account_tag_value(faucet_id) },
            execution_hint: NoteExecutionHint::Always,
            aux,
        }) && n.recipient == (NoteRecipient {
            serial_num,
            script: mint_script,
            inputs: mint_inputs,
        }),
{
    let note_type = NoteType::Public;
    let execution_hint = NoteExecutionHint::always();
    let tag = NoteTag::from_account_id(faucet_id);
    let metadata = NoteMetadata { sender, note_type, tag, execution_hint, aux };
    let empty: Vec<Word> = Vec::new();
    assert(asset_views(empty@) =~= Seq::<Seq<u64>>::empty());
    let assets = match NoteAssets::new(empty) {
        Ok(a) => a,
        Err(_) => {
            proof {
                assert(false);
            }
            NoteAssets { assets: Vec::new() }
        },
    };
    let recipient = NoteRecipient::new(serial_num, mint_script, mint_inputs);
    Ok(Note { assets, metadata, recipient })
}

/// Generates a BURN note: a public note that instructs the faucet `faucet_id` to burn the
/// fungible asset it holds. It has no inputs, is always executable, and is tagged with the
/// faucet.
pub fn create_burn_note(
    sender: AccountId,
    faucet_id: AccountId,
    fungible_asset: Word,
    aux: Felt,
    serial_num: Word,
    burn_script: NoteScript,
) -> (r: Result<Note, NoteError>)
    ensures
        r matches Ok(n) && n.assets@ == seq![fungible_asset@] && n.metadata == (NoteMetadata {
            sender,
            note_type: NoteType::Public,
            tag: NoteTag { value: account_tag_value(faucet_id) },
            execution_hint: NoteExecutionHint::Always,
            aux,
        }) && n.recipient.serial_num == serial_num && n.recipient.script == burn_script
            && n.recipient.inputs@ == Seq::<u64>::empty(),
{
    let note_type = NoteType::Public;
    let execution_hint = NoteExecutionHint::always();
    let inputs = no_inputs();
    let tag = NoteTag::from_account_id(faucet_id);
    let metadata = NoteMetadata { sender, note_type, tag, execution_hint, aux };
    let assets = single_asset(fungible_asset);
    let recipient = NoteRecipient::new(serial_num, burn_script, inputs);
    Ok(Note { assets, metadata, recipient })
}

} // verus!
