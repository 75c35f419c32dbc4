//! The multisig authentication component with spending limits: its configuration, the names of
//! its storage slots, and the storage that it lays out.

use vstd::prelude::*;

use crate::account::{commitment_views, AccountComponent, ComponentLibrary, PublicKeyCommitment};
use crate::errors::AccountError;
use crate::field::{word_of_u32s, Felt, Word};
use crate::maps::{has_key, keys_distinct, lemma_map_of, map_of};
use crate::storage::{
    entry_views, slot_views, SlotContentView, StorageMap, StorageMapError, StorageSlot,
    StorageSlotName,
};

verus! {

// STORAGE SLOT NAMES
// ================================================================================================

/// The name of the slot that holds the threshold configuration.
pub open spec fn threshold_config_slot_name() -> Seq<char> {
    "miden::standards::auth::ecdsa_k256_keccak_multisig::threshold_config"@
}

/// The name of the slot that holds the approver public keys.
pub open spec fn approver_public_keys_slot_name() -> Seq<char> {
    "miden::standards::auth::ecdsa_k256_keccak_multisig::approver_public_keys"@
}

/// The name of the slot that holds the executed transactions.
pub open spec fn executed_transactions_slot_name() -> Seq<char> {
    "miden::standards::auth::ecdsa_k256_keccak_multisig::executed_transactions"@
}

/// The name of the slot that holds the per-procedure thresholds.
pub open spec fn procedure_thresholds_slot_name() -> Seq<char> {
    "miden::standards::auth::ecdsa_k256_keccak_multisig::procedure_thresholds"@
}

/// The name of the slot that holds the spent interval in blocks.
pub open spec fn spent_interval_blocks_slot_name() -> Seq<char> {
    "miden::standards::auth::ecdsa_k256_keccak_multisig::spent_interval_blocks"@
}

/// The name of the slot that holds the amount limits.
pub open spec fn amount_limits_slot_name() -> Seq<char> {
    "miden::standards::auth::ecdsa_k256_keccak_multisig::amount_limits"@
}

/// The name of the slot that holds the spending tracker.
pub open spec fn spending_tracker_slot_name() -> Seq<char> {
    "miden::standards::auth::ecdsa_k256_keccak_multisig::spending_tracker"@
}

/// The name of the slot that holds the tier threshold configuration.
pub open spec fn tier_threshold_config_slot_name() -> Seq<char> {
    "miden::standards::auth::ecdsa_k256_keccak_multisig::tier_threshold_config"@
}

/// The name of the slot that holds the oracle configuration.
pub open spec fn oracle_config_slot_name() -> Seq<char> {
    "miden::standards::auth::ecdsa_k256_keccak_multisig::oracle_config"@
}

/// The name of the slot that holds the root of the procedure that gets prices.
pub open spec fn get_price_proc_root_slot_name() -> Seq<char> {
    "miden::standards::auth::ecdsa_k256_keccak_multisig::get_price_proc_root"@
}

// CONFIGURATION
// ================================================================================================

/// The configuration of the multisig component, every word and element taken by its view.
pub struct MultisigConfigView {
    pub approvers: Seq<Seq<u64>>,
    pub default_threshold: u32,
    pub proc_thresholds: Seq<(Seq<u64>, u32)>,
    pub spent_interval_blocks: u32,
    pub amount_limits: Seq<u64>,
    pub tier_thresholds: Seq<u32>,
    pub oracle_id: Seq<u64>,
    pub get_price_proc_root: Seq<u64>,
}

/// The per-procedure thresholds of a sequence, each procedure root taken by its view.
pub open spec fn proc_threshold_views(s: Seq<(Word, u32)>) -> Seq<(Seq<u64>, u32)> {
    s.map_values(|e: (Word, u32)| (e.0@, e.1))
}

/// The error that a per-procedure threshold raises among `num_approvers` approvers, if any.
pub open spec fn proc_threshold_error(threshold: u32, num_approvers: u32) -> Option<AccountError> {
    if threshold == 0 {
        Some(AccountError::ProcedureThresholdIsZero)
    } else if threshold > num_approvers {
        Some(AccountError::ProcedureThresholdExceedsApprovers)
    } else {
        None
    }
}

/// The number of approvers as the component stores it: the count taken modulo `2^32`.
pub open spec fn approver_count(approvers: Seq<Seq<u64>>) -> u32 {
    approvers.len() as u32
}

/// The error that `AuthMultisigSpendingLimitsConfig::new` raises, if any.
pub open spec fn config_error(approvers: Seq<Seq<u64>>, default_threshold: u32) -> Option<
    AccountError,
> {
    if default_threshold == 0 {
        Some(AccountError::ThresholdIsZero)
    } else if default_threshold > approver_count(approvers) {
        Some(AccountError::ThresholdExceedsApprovers)
    } else if !approvers.no_duplicates() {
        Some(AccountError::DuplicateApprovers)
    } else {
        None
    }
}

/// When a configuration is refused: with a zero threshold first, then with a threshold above
/// the number of approvers, then when some two approvers, at any two positions, are the same;
/// and it is accepted exactly when none of these holds.
pub proof fn lemma_config_error_cases(approvers: Seq<Seq<u64>>, default_threshold: u32)
    ensures
        default_threshold == 0 ==> config_error(approvers, default_threshold) == Some(
            AccountError::ThresholdIsZero,
        ),
        default_threshold != 0 && default_threshold > approvers.len() as u32 ==> config_error(
            approvers,
            default_threshold,
        ) == Some(AccountError::ThresholdExceedsApprovers),
        (1 <= default_threshold <= approvers.len() as u32 && exists|i: int, j: int|
            0 <= i < j < approvers.len() && approvers[i] == approvers[j]) ==> config_error(
            approvers,
            default_threshold,
        ) == Some(AccountError::DuplicateApprovers),
        config_error(approvers, default_threshold) is None <==> (1 <= default_threshold
            <= approvers.len() as u32 && forall|i: int, j: int|
            0 <= i < j < approvers.len() ==> approvers[i] != approvers[j]),
{
    if exists|i: int, j: int| 0 <= i < j < approvers.len() && approvers[i] == approvers[j] {
        let (i, j) = choose|i: int, j: int| 0 <= i < j < approvers.len() && approvers[i] == approvers[j];
        assert(!approvers.no_duplicates());
    }
    if forall|i: int, j: int| 0 <= i < j < approvers.len() ==> approvers[i] != approvers[j] {
        assert forall|a: int, b: int|
            0 <= a < approvers.len() && 0 <= b < approvers.len() && a != b implies approvers[a]
            != approvers[b] by {
            if a > b {
                assert(approvers[b] != approvers[a]);
            }
        }
    }
}

impl MultisigConfigView {
    /// What every configuration satisfies: a default threshold between one and the number of
    /// approvers, no approver twice, and every per-procedure threshold between one and the
    /// number of approvers.
    pub open spec fn valid(self) -> bool {
        &&& config_error(self.approvers, self.default_threshold) is None
        &&& forall|k: int|
            0 <= k < self.proc_thresholds.len() ==> #[trigger] proc_threshold_error(
                self.proc_thresholds[k].1,
                approver_count(self.approvers),
            ) is None
        &&& self.amount_limits.len() == 4
        &&& self.tier_thresholds.len() == 4
        &&& self.oracle_id.len() == 2
        &&& self.get_price_proc_root.len() == 4
    }
}

/// One call of a configuration builder, with its argument taken by its view.
pub enum ConfigStep {
    ProcThresholds(Seq<(Seq<u64>, u32)>),
    SpentIntervalBlocks(u32),
    AmountLimits(Seq<u64>),
    TierThresholds(Seq<u32>),
    OracleConfig(Seq<u64>),
    GetPriceProcRoot(Seq<u64>),
}

/// The configuration after one builder call: the call replaces its own setting only.
pub open spec fn apply_config_step(c: MultisigConfigView, step: ConfigStep) -> MultisigConfigView {
    match step {
        ConfigStep::ProcThresholds(p) => MultisigConfigView { proc_thresholds: p, ..c },
        ConfigStep::SpentIntervalBlocks(b) => MultisigConfigView { spent_interval_blocks: b, ..c },
        ConfigStep::AmountLimits(a) => MultisigConfigView { amount_limits: a, ..c },
        ConfigStep::TierThresholds(t) => MultisigConfigView { tier_thresholds: t, ..c },
        ConfigStep::OracleConfig(o) => MultisigConfigView { oracle_id: o, ..c },
        ConfigStep::GetPriceProcRoot(r) => MultisigConfigView { get_price_proc_root: r, ..c },
    }
}

/// The configuration after a sequence of builder calls, made in order.
pub open spec fn apply_config_steps(c: MultisigConfigView, steps: Seq<ConfigStep>) -> MultisigConfigView
    decreases steps.len(),
{
    if steps.len() == 0 {
        c
    } else {
        apply_config_step(apply_config_steps(c, steps.drop_last()), steps.last())
    }
}

/// No sequence of builder calls changes the approvers or the default threshold.
pub proof fn lemma_builders_keep_approvers_and_threshold(
    c: MultisigConfigView,
    steps: Seq<ConfigStep>,
)
    ensures
        apply_config_steps(c, steps).approvers == c.approvers,
        apply_config_steps(c, steps).default_threshold == c.default_threshold,
    decreases steps.len(),
{
    if steps.len() > 0 {
        lemma_builders_keep_approvers_and_threshold(c, steps.drop_last());
    }
}

/// Configuration for the [`AuthMultisigSpendingLimits`] component.
#[derive(Debug, PartialEq, Eq)]
pub struct AuthMultisigSpendingLimitsConfig {
    approvers: Vec<PublicKeyCommitment>,
    default_threshold: u32,
    proc_thresholds: Vec<(Word, u32)>,
    spent_interval_blocks: u32,
    amount_limits: [u64; 4],
    tier_thresholds: [u32; 4],
    oracle_id: [Felt; 2],
    get_price_proc_root: Word,
}

impl View for AuthMultisigSpendingLimitsConfig {
    type V = MultisigConfigView;

    closed spec fn view(&self) -> MultisigConfigView {
        MultisigConfigView {
            approvers: commitment_views(self.approvers@),
            default_threshold: self.default_threshold,
            proc_thresholds: proc_threshold_views(self.proc_thresholds@),
            spent_interval_blocks: self.spent_interval_blocks,
            amount_limits: self.amount_limits@,
            tier_thresholds: self.tier_thresholds@,
            oracle_id: seq![self.oracle_id@[0]@, self.oracle_id@[1]@],
            get_price_proc_root: self.get_price_proc_root@,
        }
    }
}

/// A copy of a list of per-procedure thresholds.
fn copy_proc_thresholds(v: &Vec<(Word, u32)>) -> (r: Vec<(Word, u32)>)
    ensures
        r@ == v@,
{
    let mut r: Vec<(Word, u32)> = Vec::new();
    let n = v.len();
    let mut i: usize = 0;
    while i < n
        invariant
            n == v@.len(),
            0 <= i <= n,
            r@ == v@.take(i as int),
        decreases n - i,
    {
        r.push(v[i]);
        assert(r@ =~= v@.take(i + 1));
        i = i + 1;
    }
    assert(v@.take(n as int) =~= v@);
    r
}

impl Clone for AuthMultisigSpendingLimitsConfig {
    fn clone(&self) -> (r: Self)
        ensures
            r@ == self@,
    {
        proof {
            use_type_invariant(self);
        }
        let approvers = self.approvers.clone();
        let proc_thresholds = copy_proc_thresholds(&self.proc_thresholds);
        assert(commitment_views(approvers@) =~= commitment_views(self.approvers@));
        assert(proc_threshold_views(proc_thresholds@) =~= proc_threshold_views(self.proc_thresholds@));
        AuthMultisigSpendingLimitsConfig {
            approvers,
            default_threshold: self.default_threshold,
            proc_thresholds,
            spent_interval_blocks: self.spent_interval_blocks,
            amount_limits: self.amount_limits,
            tier_thresholds: self.tier_thresholds,
            oracle_id: self.oracle_id,
            get_price_proc_root: self.get_price_proc_root,
        }
    }
}

impl AuthMultisigSpendingLimitsConfig {
    #[verifier::type_invariant]
    spec fn is_valid(self) -> bool {
        self@.valid()
    }

    /// Creates a new configuration with the given approvers and a default threshold.
    ///
    /// The `default_threshold` must be at least 1 and at most the number of approvers, and no
    /// approver may be given twice. The other settings start at zero.
    pub fn new(approvers: Vec<PublicKeyCommitment>, default_threshold: u32) -> (r: Result<
        Self,
        AccountError,
    >)
        ensures
            match config_error(commitment_views(approvers@), default_threshold) {
                Some(e) => r == Err::<Self, AccountError>(e),
                None => r matches Ok(c) && c@ == (MultisigConfigView {
                    approvers: commitment_views(approvers@),
                    default_threshold,
                    proc_thresholds: Seq::empty(),
                    spent_interval_blocks: 0,
                    amount_limits: seq![0, 0, 0, 0],
                    tier_thresholds: seq![0, 0, 0, 0],
                    oracle_id: seq![0, 0],
                    get_price_proc_root: word_of_u32s(0, 0, 0, 0),
                }),
            },
            r matches Ok(c) ==> c@.valid(),
            r is Ok ==> 1 <= default_threshold <= approvers@.len() as u32,
            r is Ok ==> forall|i: int, j: int|
                0 <= i < j < approvers@.len() ==> approvers@[i]@ != approvers@[j]@,
            (1 <= default_threshold <= approvers@.len() as u32 && exists|i: int, j: int|
                0 <= i < j < approvers@.len() && approvers@[i]@ == approvers@[j]@) ==> r == Err::<
                Self,
                AccountError,
            >(AccountError::DuplicateApprovers),
    {
        proof {
            lemma_config_error_cases(commitment_views(approvers@), default_threshold);
            let views = commitment_views(approvers@);
            assert forall|i: int| 0 <= i < approvers@.len() implies #[trigger] views[i]
                == approvers@[i]@ by {}
        }
        if default_threshold == 0 {
            return Err(AccountError::ThresholdIsZero);
        }
        if default_threshold > approvers.len() as u32 {
            return Err(AccountError::ThresholdExceedsApprovers);
        }
        let ghost views = commitment_views(approvers@);
        assert(approver_count(views) == approvers.len() as u32);
        let n = approvers.len();
        let mut j: usize = 0;
        while j < n
            invariant
                n == approvers@.len(),
                views == commitment_views(approvers@),
                default_threshold != 0,
                default_threshold <= approver_count(views),
                0 <= j <= n,
                forall|a: int, b: int| 0 <= a < b < j ==> views[a] != views[b],
            decreases n - j,
        {
            let mut i: usize = 0;
            while i < j
                invariant
                    n == approvers@.len(),
                    views == commitment_views(approvers@),
                    default_threshold != 0,
                    default_threshold <= approver_count(views),
                    0 <= i <= j < n,
                    forall|a: int, b: int| 0 <= a < b < j ==> views[a] != views[b],
                    forall|a: int| 0 <= a < i ==> views[a] != views[j as int],
                decreases j - i,
            {
                if approvers[i].same_as(&approvers[j]) {
                    assert(views[i as int] == views[j as int]);
                    assert(!views.no_duplicates());
                    return Err(AccountError::DuplicateApprovers);
                }
                i = i + 1;
            }
            j = j + 1;
        }
        assert(views.no_duplicates()) by {
            assert forall|a: int, b: int|
                0 <= a < views.len() && 0 <= b < views.len() && a != b implies views[a]
                != views[b] by {
                if a > b {
                    assert(views[b] != views[a]);
                }
            }
        }
        assert forall|i: int, j: int| 0 <= i < j < approvers@.len() implies approvers@[i]@
            != approvers@[j]@ by {
            assert(views[i] == approvers@[i]@ && views[j] == approvers@[j]@);
        }
        let c = AuthMultisigSpendingLimitsConfig {
            approvers,
            default_threshold,
            proc_thresholds: Vec::new(),
            spent_interval_blocks: 0,
            amount_limits: [0; 4],
            tier_thresholds: [0; 4],
            oracle_id: [Felt::from_u32(0), Felt::from_u32(0)],
            get_price_proc_root: Word::from_u32s([0, 0, 0, 0]),
        };
        assert(c@.proc_thresholds =~= Seq::<(Seq<u64>, u32)>::empty());
        assert(c@.amount_limits =~= seq![0u64, 0, 0, 0]);
        assert(c@.tier_thresholds =~= seq![0u32, 0, 0, 0]);
        Ok(c)
    }

    /// Attaches a per-procedure threshold map. Each procedure threshold must be at least 1 and
    /// at most the number of approvers; the first one that is not decides the error.
    pub fn with_proc_thresholds(self, proc_thresholds: Vec<(Word, u32)>) -> (r: Result<
        Self,
        AccountError,
    >)
        ensures
            r is Ok <==> forall|k: int|
                0 <= k < proc_thresholds@.len() ==> #[trigger] proc_threshold_error(
                    proc_thresholds@[k].1,
                    approver_count(self@.approvers),
                ) is None,
            (forall|k: int|
                0 <= k < proc_thresholds@.len() ==> #[trigger] proc_threshold_error(
                    proc_thresholds@[k].1,
                    approver_count(self@.approvers),
                ) is None) ==> (r matches Ok(c) && c@ == (MultisigConfigView {
                proc_thresholds: proc_threshold_views(proc_thresholds@),
                ..self@
            })),
            r matches Ok(c) ==> c@ == apply_config_step(
                self@,
                ConfigStep::ProcThresholds(proc_threshold_views(proc_thresholds@)),
            ),
            r matches Err(e) ==> exists|k: int|
                0 <= k < proc_thresholds@.len() && proc_threshold_error(
                    proc_thresholds@[k].1,
                    approver_count(self@.approvers),
                ) == Some(e) && forall|m: int|
                    0 <= m < k ==> #[trigger] proc_threshold_error(
                        proc_thresholds@[m].1,
                        approver_count(self@.approvers),
                    ) is None,
            r matches Ok(c) ==> c@.valid(),
    {
        proof {
            use_type_invariant(&self);
        }
        let num_approvers = self.approvers.len() as u32;
        let n = proc_thresholds.len();
        let mut k: usize = 0;
        while k < n
            invariant
                n == proc_thresholds@.len(),
                num_approvers == approver_count(self@.approvers),
                0 <= k <= n,
                forall|m: int|
                    0 <= m < k ==> #[trigger] proc_threshold_error(
                        proc_thresholds@[m].1,
                        num_approvers,
                    ) is None,
            decreases n - k,
        {
            let threshold = proc_thresholds[k].1;
            assert(proc_threshold_error(proc_thresholds@[k as int].1, num_approvers) is Some
                ==> !(forall|m: int|
                0 <= m < n ==> #[trigger] proc_threshold_error(
                    proc_thresholds@[m].1,
                    num_approvers,
                ) is None));
            if threshold == 0 {
                return Err(AccountError::ProcedureThresholdIsZero);
            }
            if threshold > num_approvers {
                return Err(AccountError::ProcedureThresholdExceedsApprovers);
            }
            k = k + 1;
        }
        let mut c = self;
        c.proc_thresholds = proc_thresholds;
        assert(c@ == (MultisigConfigView {
            proc_thresholds: proc_threshold_views(proc_thresholds@),
            ..self@
        }));
        Ok(c)
    }

    /// Attaches a spent interval in blocks for spending limits.
    pub fn with_spent_interval_blocks(self, spent_interval_blocks: u32) -> (r: Self)
        ensures
            r@ == (MultisigConfigView { spent_interval_blocks, ..self@ }),
            r@ == apply_config_step(self@, ConfigStep::SpentIntervalBlocks(spent_interval_blocks)),
            r@.valid(),
    {
        proof {
            use_type_invariant(&self);
            Word::lemma_len(self.get_price_proc_root);
        }
        let mut c = self;
        c.spent_interval_blocks = spent_interval_blocks;
        c
    }

    /// Attaches amount limits for spending limits.
    pub fn with_amount_limits(self, amount_limits: [u64; 4]) -> (r: Self)
        ensures
            r@ == (MultisigConfigView { amount_limits: amount_limits@, ..self@ }),
            r@ == apply_config_step(self@, ConfigStep::AmountLimits(amount_limits@)),
            r@.valid(),
    {
        proof {
            use_type_invariant(&self);
            Word::lemma_len(self.get_price_proc_root);
        }
        let mut c = self;
        c.amount_limits = amount_limits;
        c
    }

    /// Attaches tier thresholds for spending limits.
    pub fn with_tier_thresholds(self, tier_thresholds: [u32; 4]) -> (r: Self)
        ensures
            r@ == (MultisigConfigView { tier_thresholds: tier_thresholds@, ..self@ }),
            r@ == apply_config_step(self@, ConfigStep::TierThresholds(tier_thresholds@)),
            r@.valid(),
    {
        proof {
            use_type_invariant(&self);
            Word::lemma_len(self.get_price_proc_root);
        }
        let mut c = self;
        c.tier_thresholds = tier_thresholds;
        c
    }

    /// Attaches the oracle configuration for spending limits.
    pub fn with_oracle_config(self, oracle_id: [Felt; 2]) -> (r: Self)
        ensures
            r@ == (MultisigConfigView { oracle_id: seq![oracle_id@[0]@, oracle_id@[1]@], ..self@ }),
            r@ == apply_config_step(self@, ConfigStep::OracleConfig(seq![oracle_id@[0]@, oracle_id@[1]@])),
            r@.valid(),
    {
        proof {
            use_type_invariant(&self);
            Word::lemma_len(self.get_price_proc_root);
        }
        let mut c = self;
        c.oracle_id = oracle_id;
        c
    }

    /// Attaches the root of the procedure that gets prices, for spending limits.
    pub fn with_get_price_proc_root(self, get_price_proc_root: Word) -> (r: Self)
        ensures
            r@ == (MultisigConfigView { get_price_proc_root: get_price_proc_root@, ..self@ }),
            r@ == apply_config_step(self@, ConfigStep::GetPriceProcRoot(get_price_proc_root@)),
            r@.valid(),
    {
        proof {
            use_type_invariant(&self);
            Word::lemma_len(self.get_price_proc_root);
        }
        proof {
            Word::lemma_len(get_price_proc_root);
        }
        let mut c = self;
        c.get_price_proc_root = get_price_proc_root;
        c
    }

    /// The approvers, in the order in which they were given.
    pub fn approvers(&self) -> (r: &[PublicKeyCommitment])
        ensures
            commitment_views(r@) == self@.approvers,
            self@.valid(),
    {
        proof {
            use_type_invariant(self);
        }
        self.approvers.as_slice()
    }

    /// The default threshold.
    pub fn default_threshold(&self) -> (r: u32)
        ensures
            r == self@.default_threshold,
    {
        self.default_threshold
    }

    /// The per-procedure thresholds.
    pub fn proc_thresholds(&self) -> (r: &[(Word, u32)])
        ensures
            proc_threshold_views(r@) == self@.proc_thresholds,
    {
        self.proc_thresholds.as_slice()
    }

    /// The spent interval in blocks.
    pub fn spent_interval_blocks(&self) -> (r: u32)
        ensures
            r == self@.spent_interval_blocks,
    {
        self.spent_interval_blocks
    }

    /// The amount limits.
    pub fn amount_limits(&self) -> (r: &[u64; 4])
        ensures
            r@ == self@.amount_limits,
    {
        &self.amount_limits
    }

    /// The tier thresholds.
    pub fn tier_thresholds(&self) -> (r: &[u32; 4])
        ensures
            r@ == self@.tier_thresholds,
    {
        &self.tier_thresholds
    }

    /// The oracle identifier.
    pub fn oracle_id(&self) -> (r: &[Felt; 2])
        ensures
            r@[0]@ == self@.oracle_id[0],
            r@[1]@ == self@.oracle_id[1],
    {
        &self.oracle_id
    }

    /// The root of the procedure that gets prices.
    pub fn get_price_proc_root(&self) -> (r: &Word)
        ensures
            r@ == self@.get_price_proc_root,
    {
        &self.get_price_proc_root
    }
}

// MULTISIG AUTHENTICATION COMPONENT
// ================================================================================================

/// The key under which the approver at position `i` is stored: `[i, 0, 0, 0]`, the index taken
/// modulo `2^32`.
pub open spec fn index_key(i: int) -> Seq<u64> {
    word_of_u32s(i as u32, 0, 0, 0)
}

/// The entries of the approver map: the approver at position `i` under `index_key(i)`.
pub open spec fn approver_entries(approvers: Seq<Seq<u64>>) -> Seq<(Seq<u64>, Seq<u64>)> {
    Seq::new(approvers.len(), |i: int| (index_key(i), approvers[i]))
}

/// The entries of the procedure threshold map: each procedure root maps to
/// `[threshold, 0, 0, 0]`.
pub open spec fn proc_threshold_entries(proc_thresholds: Seq<(Seq<u64>, u32)>) -> Seq<
    (Seq<u64>, Seq<u64>),
> {
    proc_thresholds.map_values(|e: (Seq<u64>, u32)| (e.0, word_of_u32s(e.1, 0, 0, 0)))
}

/// The storage slots of the multisig component, in the order in which it lays them out.
pub open spec fn multisig_slot_views(c: MultisigConfigView) -> Seq<(Seq<char>, SlotContentView)> {
    seq![
        (
            threshold_config_slot_name(),
            SlotContentView::Value(
                word_of_u32s(c.default_threshold, approver_count(c.approvers), 0, 0),
            ),
        ),
        (
            approver_public_keys_slot_name(),
            SlotContentView::StorageMap(map_of(approver_entries(c.approvers))),
        ),
        (
            executed_transactions_slot_name(),
            SlotContentView::StorageMap(Map::<Seq<u64>, Seq<u64>>::empty()),
        ),
        (
            procedure_thresholds_slot_name(),
            SlotContentView::StorageMap(map_of(proc_threshold_entries(c.proc_thresholds))),
        ),
        (
            spent_interval_blocks_slot_name(),
            SlotContentView::Value(word_of_u32s(c.spent_interval_blocks, 0, 0, 0)),
        ),
        (
            amount_limits_slot_name(),
            SlotContentView::Value(
                word_of_u32s(
                    c.amount_limits[0] as u32,
                    c.amount_limits[1] as u32,
                    c.amount_limits[2] as u32,
                    c.amount_limits[3] as u32,
                ),
            ),
        ),
        (
            tier_threshold_config_slot_name(),
            SlotContentView::Value(
                word_of_u32s(
                    c.tier_thresholds[0],
                    c.tier_thresholds[1],
                    c.tier_thresholds[2],
                    c.tier_thresholds[3],
                ),
            ),
        ),
        (
            oracle_config_slot_name(),
            SlotContentView::Value(seq![c.oracle_id[0], c.oracle_id[1], 0, 0]),
        ),
        (get_price_proc_root_slot_name(), SlotContentView::Value(c.get_price_proc_root)),
    ]
}

/// What the multisig component needs of its configuration to lay out its storage: at most
/// `2^32` approvers, so that their index keys differ, and no procedure root twice.
pub open spec fn storable(c: MultisigConfigView) -> bool {
    &&& c.approvers.len() <= 0x1_0000_0000
    &&& keys_distinct(proc_threshold_entries(c.proc_thresholds))
}

/// An account component implementing a multisig with spending limits.
///
/// It enforces a threshold of approver signatures for every transaction, with optional
/// per-procedure threshold overrides.
///
/// ## Storage Layout
///
/// - threshold config: `[threshold, num_approvers, 0, 0]`
/// - approver public keys: a map from `[index, 0, 0, 0]` to the approver's public key
/// - executed transactions: an empty map
/// - procedure thresholds: a map from each procedure root to `[threshold, 0, 0, 0]`
/// - spent interval blocks: `[spent_interval_blocks, 0, 0, 0]`
/// - amount limits: the four limits, each truncated to 32 bits
/// - tier threshold config: the four tier thresholds
/// - oracle config: `[oracle_id_1, oracle_id_2, 0, 0]`
/// - get price procedure root: the root itself
///
/// This component supports all account types.
#[derive(Debug)]
pub struct AuthMultisigSpendingLimits {
    config: AuthMultisigSpendingLimitsConfig,
}

impl View for AuthMultisigSpendingLimits {
    type V = MultisigConfigView;

    closed spec fn view(&self) -> MultisigConfigView {
        self.config@
    }
}

impl AuthMultisigSpendingLimits {
    /// Creates a new component from the provided configuration; this never fails.
    pub fn new(config: AuthMultisigSpendingLimitsConfig) -> (r: Result<Self, AccountError>)
        ensures
            r matches Ok(m) && m@ == config@,
            r matches Ok(m) ==> m@.valid(),
    {
        proof {
            use_type_invariant(&config);
        }
        Ok(AuthMultisigSpendingLimits { config })
    }

    /// The configuration of the component.
    pub fn config(&self) -> (r: &AuthMultisigSpendingLimitsConfig)
        ensures
            r@ == self@,
    {
        &self.config
    }

    /// Returns the name of the slot where the threshold configuration is stored.
    pub fn threshold_config_slot() -> (r: StorageSlotName)
        ensures
            r@ == threshold_config_slot_name(),
    {
        StorageSlotName::new("miden::standards::auth::ecdsa_k256_keccak_multisig::threshold_config")
    }

    /// Returns the name of the slot where the approver public keys are stored.
    pub fn approver_public_keys_slot() -> (r: StorageSlotName)
        ensures
            r@ == approver_public_keys_slot_name(),
    {
        StorageSlotName::new(
            "miden::standards::auth::ecdsa_k256_keccak_multisig::approver_public_keys",
        )
    }

    /// Returns the name of the slot where the executed transactions are stored.
    pub fn executed_transactions_slot() -> (r: StorageSlotName)
        ensures
            r@ == executed_transactions_slot_name(),
    {
        StorageSlotName::new(
            "miden::standards::auth::ecdsa_k256_keccak_multisig::executed_transactions",
        )
    }

    /// Returns the name of the slot where the procedure thresholds are stored.
    pub fn procedure_thresholds_slot() -> (r: StorageSlotName)
        ensures
            r@ == procedure_thresholds_slot_name(),
    {
        StorageSlotName::new(
            "miden::standards::auth::ecdsa_k256_keccak_multisig::procedure_thresholds",
        )
    }

    /// Returns the name of the slot where the spent interval in blocks is stored.
    pub fn spent_interval_blocks_slot() -> (r: StorageSlotName)
        ensures
            r@ == spent_interval_blocks_slot_name(),
    {
        StorageSlotName::new(
            "miden::standards::auth::ecdsa_k256_keccak_multisig::spent_interval_blocks",
        )
    }

    /// Returns the name of the slot where the spending tracker is stored.
    pub fn spending_tracker_slot() -> (r: StorageSlotName)
        ensures
            r@ == spending_tracker_slot_name(),
    {
        StorageSlotName::new("miden::standards::auth::ecdsa_k256_keccak_multisig::spending_tracker")
    }

    /// Returns the name of the slot where the amount limits are stored.
    pub fn amount_limits_slot() -> (r: StorageSlotName)
        ensures
            r@ == amount_limits_slot_name(),
    {
        StorageSlotName::new("miden::standards::auth::ecdsa_k256_keccak_multisig::amount_limits")
    }

    /// Returns the name of the slot where the tier threshold configuration is stored.
    pub fn tier_threshold_config_slot() -> (r: StorageSlotName)
        ensures
            r@ == tier_threshold_config_slot_name(),
    {
        StorageSlotName::new(
            "miden::standards::auth::ecdsa_k256_keccak_multisig::tier_threshold_config",
        )
    }

    /// Returns the name of the slot where the oracle configuration is stored.
    pub fn oracle_config_slot() -> (r: StorageSlotName)
        ensures
            r@ == oracle_config_slot_name(),
    {
        StorageSlotName::new("miden::standards::auth::ecdsa_k256_keccak_multisig::oracle_config")
    }

    /// Returns the name of the slot where the get price procedure root is stored.
    pub fn get_price_proc_root_slot() -> (r: StorageSlotName)
        ensures
            r@ == get_price_proc_root_slot_name(),
    {
        StorageSlotName::new(
            "miden::standards::auth::ecdsa_k256_keccak_multisig::get_price_proc_root",
        )
    }
}

/// The approver map: each approver under the key `[index, 0, 0, 0]`.
fn approver_map(approvers: &[PublicKeyCommitment]) -> (m: StorageMap)
    requires
        approvers@.len() <= 0x1_0000_0000,
    ensures
        m@ == map_of(approver_entries(commitment_views(approvers@))),
{
    let ghost views = commitment_views(approvers@);
    let ghost target = approver_entries(views);
    let n = approvers.len();
    let mut entries: Vec<(Word, Word)> = Vec::new();
    let mut i: usize = 0;
    while i < n
        invariant
            n == approvers@.len(),
            n <= 0x1_0000_0000,
            views == commitment_views(approvers@),
            target == approver_entries(views),
            0 <= i <= n,
            entries@.len() == i,
            entry_views(entries@) == target.take(i as int),
        decreases n - i,
    {
        let key = Word::from_u32s([i as u32, 0, 0, 0]);
        let value = approvers[i].as_word();
        let ghost before = entries@;
        entries.push((key, value));
        assert forall|j: int| 0 <= j < i + 1 implies #[trigger] entry_views(entries@)[j]
            == target.take(i + 1)[j] by {
            if j < i {
                assert(entries@[j] == before[j]);
                assert(entry_views(before)[j] == target.take(i as int)[j]);
            } else {
                assert(key@ =~= index_key(i as int));
            }
        }
        assert(entry_views(entries@) =~= target.take(i + 1));
        i = i + 1;
    }
    assert(target.take(n as int) =~= target);
    assert(keys_distinct(target)) by {
        assert forall|a: int, b: int| 0 <= a < b < target.len() implies target[a].0
            != target[b].0 by {
            assert(target[a].0[0] != target[b].0[0]);
        }
    }
    match StorageMap::with_entries(entries) {
        Ok(m) => m,
        Err(_) => {
            proof {
                assert(false);
            }
            StorageMap::new()
        },
    }
}

/// The procedure threshold map: each procedure root maps to `[threshold, 0, 0, 0]`.
fn proc_threshold_map(proc_thresholds: &[(Word, u32)]) -> (m: StorageMap)
    requires
        keys_distinct(proc_threshold_entries(proc_threshold_views(proc_thresholds@))),
    ensures
        m@ == map_of(proc_threshold_entries(proc_threshold_views(proc_thresholds@))),
{
    let ghost target = proc_threshold_entries(proc_threshold_views(proc_thresholds@));
    let n = proc_thresholds.len();
    let mut entries: Vec<(Word, Word)> = Vec::new();
    let mut k: usize = 0;
    while k < n
        invariant
            n == proc_thresholds@.len(),
            target == proc_threshold_entries(proc_threshold_views(proc_thresholds@)),
            0 <= k <= n,
            entries@.len() == k,
            entry_views(entries@) == target.take(k as int),
        decreases n - k,
    {
        let (root, threshold) = proc_thresholds[k];
        let ghost before = entries@;
        entries.push((root, Word::from_u32s([threshold, 0, 0, 0])));
        assert forall|j: int| 0 <= j < k + 1 implies #[trigger] entry_views(entries@)[j]
            == target.take(k + 1)[j] by {
            if j < k {
                assert(entries@[j] == before[j]);
                assert(entry_views(before)[j] == target.take(k as int)[j]);
            }
        }
        assert(entry_views(entries@) =~= target.take(k + 1));
        k = k + 1;
    }
    assert(target.take(n as int) =~= target);
    match StorageMap::with_entries(entries) {
        Ok(m) => m,
        Err(_) => {
            proof {
                assert(false);
            }
            StorageMap::new()
        },
    }
}

impl AccountComponent {
    /// The multisig component with spending limits, with its storage laid out as
    /// [`AuthMultisigSpendingLimits`] describes.
    pub fn from_multisig(multisig: AuthMultisigSpendingLimits) -> (c: AccountComponent)
        requires
            storable(multisig@),
        ensures
            c.library == ComponentLibrary::MultisigSpendingLimits,
            c.slot_views() == multisig_slot_views(multisig@),
            c.supports_all_types,
    {
        let config = multisig.config();
        let approvers = config.approvers();
        let num_approvers = approvers.len() as u32;
        let amount_limits = config.amount_limits();
        let tier_thresholds = config.tier_thresholds();
        let oracle_id = config.oracle_id();
        let storage_slots = vec![
            StorageSlot::with_value(
                AuthMultisigSpendingLimits::threshold_config_slot(),
                Word::from_u32s([config.default_threshold(), num_approvers, 0, 0]),
            ),
            StorageSlot::with_map(
                AuthMultisigSpendingLimits::approver_public_keys_slot(),
                approver_map(approvers),
            ),
            StorageSlot::with_map(
                AuthMultisigSpendingLimits::executed_transactions_slot(),
                StorageMap::new(),
            ),
            StorageSlot::with_map(
                AuthMultisigSpendingLimits::procedure_thresholds_slot(),
                proc_threshold_map(config.proc_thresholds()),
            ),
            StorageSlot::with_value(
                AuthMultisigSpendingLimits::spent_interval_blocks_slot(),
                Word::from_u32s([config.spent_interval_blocks(), 0, 0, 0]),
            ),
            StorageSlot::with_value(
                AuthMultisigSpendingLimits::amount_limits_slot(),
                Word::from_u32s(
                    [
                        amount_limits[0] as u32,
                        amount_limits[1] as u32,
                        amount_limits[2] as u32,
                        amount_limits[3] as u32,
                    ],
                ),
            ),
            StorageSlot::with_value(
                AuthMultisigSpendingLimits::tier_threshold_config_slot(),
                Word::from_u32s(
                    [tier_thresholds[0], tier_thresholds[1], tier_thresholds[2], tier_thresholds[3]],
                ),
            ),
            StorageSlot::with_value(
                AuthMultisigSpendingLimits::oracle_config_slot(),
                Word::new([oracle_id[0], oracle_id[1], Felt::from_u32(0), Felt::from_u32(0)]),
            ),
            StorageSlot::with_value(
                AuthMultisigSpendingLimits::get_price_proc_root_slot(),
                *config.get_price_proc_root(),
            ),
        ];
        let c = AccountComponent {
            library: ComponentLibrary::MultisigSpendingLimits,
            storage_slots,
            supports_all_types: true,
        };
        assert(c.slot_views() =~= multisig_slot_views(multisig@));
        c
    }
    /// The multisig component, or, where its storage cannot be laid out, the error of the map
    /// that cannot be built: more than `2^32` approvers repeat an index key, and a repeated
    /// procedure root repeats a key of the procedure threshold map.
    pub fn try_from_multisig(multisig: AuthMultisigSpendingLimits) -> (r: Result<
        AccountComponent,
        StorageMapError,
    >)
        ensures
            r is Ok <==> storable(multisig@),
            r matches Ok(c) ==> c.library == ComponentLibrary::MultisigSpendingLimits
                && c.slot_views() == multisig_slot_views(multisig@) && c.supports_all_types,
    {
        let config = multisig.config();
        if config.approvers().len() as u64 > 0x1_0000_0000u64 {
            return Err(StorageMapError::DuplicateKey { key: Word::empty() });
        }
        let proc_thresholds = config.proc_thresholds();
        let ghost target = proc_threshold_entries(proc_threshold_views(proc_thresholds@));
        let n = proc_thresholds.len();
        let mut j: usize = 0;
        while j < n
            invariant
                n == proc_thresholds@.len(),
                target == proc_threshold_entries(proc_threshold_views(proc_thresholds@)),
                target == proc_threshold_entries(multisig@.proc_thresholds),
                0 <= j <= n,
                forall|a: int, b: int| 0 <= a < b < j ==> target[a].0 != target[b].0,
            decreases n - j,
        {
            let mut i: usize = 0;
            while i < j
                invariant
                    n == proc_thresholds@.len(),
                    target == proc_threshold_entries(proc_threshold_views(proc_thresholds@)),
                    target == proc_threshold_entries(multisig@.proc_thresholds),
                    0 <= i <= j < n,
                    forall|a: int, b: int| 0 <= a < b < j ==> target[a].0 != target[b].0,
                    forall|a: int| 0 <= a < i ==> target[a].0 != target[j as int].0,
                decreases j - i,
            {
                if proc_thresholds[i].0.same_as(&proc_thresholds[j].0) {
                    assert(target[i as int].0 == target[j as int].0);
                    return Err(StorageMapError::DuplicateKey { key: proc_thresholds[j].0 });
                }
                i = i + 1;
            }
            j = j + 1;
        }
        Ok(AccountComponent::from_multisig(multisig))
    }
}

// LAWS
// ================================================================================================

/// The names of the component's slots, the spending tracker's among them, differ from one
/// another.
pub proof fn lemma_multisig_slot_names_distinct(c: MultisigConfigView)
    ensures
        keys_distinct(multisig_slot_views(c)),
        forall|i: int|
            0 <= i < multisig_slot_views(c).len() ==> #[trigger] multisig_slot_views(c)[i].0
                != spending_tracker_slot_name(),
{
        reveal_strlit("miden::standards::auth::ecdsa_k256_keccak_multisig::threshold_config");
        reveal_strlit("miden::standards::auth::ecdsa_k256_keccak_multisig::approver_public_keys");
        reveal_strlit("miden::standards::auth::ecdsa_k256_keccak_multisig::executed_transactions");
        reveal_strlit("miden::standards::auth::ecdsa_k256_keccak_multisig::procedure_thresholds");
        reveal_strlit("miden::standards::auth::ecdsa_k256_keccak_multisig::spent_interval_blocks");
        reveal_strlit("miden::standards::auth::ecdsa_k256_keccak_multisig::amount_limits");
        reveal_strlit("miden::standards::auth::ecdsa_k256_keccak_multisig::spending_tracker");
        reveal_strlit("miden::standards::auth::ecdsa_k256_keccak_multisig::tier_threshold_config");
        reveal_strlit("miden::standards::auth::ecdsa_k256_keccak_multisig::oracle_config");
        reveal_strlit("miden::standards::auth::ecdsa_k256_keccak_multisig::get_price_proc_root");
    let s = multisig_slot_views(c);
    assert forall|i: int, j: int| 0 <= i < j < s.len() implies s[i].0 != s[j].0 by {
        assert(s[i].0[52] != s[j].0[52] || s[i].0.len() != s[j].0.len());
    }
    assert forall|i: int| 0 <= i < s.len() implies #[trigger] s[i].0
        != spending_tracker_slot_name() by {
        assert(s[i].0[52] != spending_tracker_slot_name()[52] || s[i].0.len()
            != spending_tracker_slot_name().len() || s[i].0[53] != spending_tracker_slot_name()[53]);
    }
}

/// The storage that the multisig component lays out, by slot name.
pub open spec fn multisig_storage(c: MultisigConfigView) -> Map<Seq<char>, SlotContentView> {
    map_of(multisig_slot_views(c))
}

/// Reading the storage that the multisig component lays out gives back its configuration: the
/// threshold config slot holds `[threshold, num_approvers, 0, 0]`; the approver map holds the
/// approver at position `i` under `[i, 0, 0, 0]` and nothing else; the executed transactions map
/// is empty; the procedure threshold map holds `[threshold, 0, 0, 0]` under each procedure root
/// and nothing else; the value slots hold the spending limit settings; and no other slot exists,
/// the spending tracker's among them.
pub proof fn lemma_multisig_storage_reads(c: MultisigConfigView)
    requires
        storable(c),
    ensures
        multisig_storage(c).dom() == set![
            threshold_config_slot_name(),
            approver_public_keys_slot_name(),
            executed_transactions_slot_name(),
            procedure_thresholds_slot_name(),
            spent_interval_blocks_slot_name(),
            amount_limits_slot_name(),
            tier_threshold_config_slot_name(),
            oracle_config_slot_name(),
            get_price_proc_root_slot_name(),
        ],
        multisig_storage(c).dom().len() == 9,
        !multisig_storage(c).contains_key(spending_tracker_slot_name()),
        multisig_storage(c)[threshold_config_slot_name()] == SlotContentView::Value(
            word_of_u32s(c.default_threshold, approver_count(c.approvers), 0, 0),
        ),
        multisig_storage(c)[approver_public_keys_slot_name()] == SlotContentView::StorageMap(
            map_of(approver_entries(c.approvers)),
        ),
        forall|i: int|
            0 <= i < c.approvers.len() ==> #[trigger] map_of(approver_entries(c.approvers))[index_key(
                i,
            )] == c.approvers[i],
        forall|k: Seq<u64>|
            #[trigger] map_of(approver_entries(c.approvers)).contains_key(k) <==> exists|i: int|
                0 <= i < c.approvers.len() && k == index_key(i),
        multisig_storage(c)[executed_transactions_slot_name()] == SlotContentView::StorageMap(
            Map::<Seq<u64>, Seq<u64>>::empty(),
        ),
        multisig_storage(c)[procedure_thresholds_slot_name()] == SlotContentView::StorageMap(
            map_of(proc_threshold_entries(c.proc_thresholds)),
        ),
        forall|k: int|
            0 <= k < c.proc_thresholds.len() ==> #[trigger] map_of(
                proc_threshold_entries(c.proc_thresholds),
            )[c.proc_thresholds[k].0] == word_of_u32s(c.proc_thresholds[k].1, 0, 0, 0),
        forall|root: Seq<u64>|
            #[trigger] map_of(proc_threshold_entries(c.proc_thresholds)).contains_key(root)
                <==> exists|k: int| 0 <= k < c.proc_thresholds.len() && root == c.proc_thresholds[k].0,
        multisig_storage(c)[spent_interval_blocks_slot_name()] == SlotContentView::Value(
            word_of_u32s(c.spent_interval_blocks, 0, 0, 0),
        ),
        multisig_storage(c)[amount_limits_slot_name()] == SlotContentView::Value(
            word_of_u32s(
                c.amount_limits[0] as u32,
                c.amount_limits[1] as u32,
                c.amount_limits[2] as u32,
                c.amount_limits[3] as u32,
            ),
        ),
        multisig_storage(c)[tier_threshold_config_slot_name()] == SlotContentView::Value(
            word_of_u32s(
                c.tier_thresholds[0],
                c.tier_thresholds[1],
                c.tier_thresholds[2],
                c.tier_thresholds[3],
            ),
        ),
        multisig_storage(c)[oracle_config_slot_name()] == SlotContentView::Value(
            seq![c.oracle_id[0], c.oracle_id[1], 0, 0],
        ),
        multisig_storage(c)[get_price_proc_root_slot_name()] == SlotContentView::Value(
            c.get_price_proc_root,
        ),
{
    let s = multisig_slot_views(c);
    lemma_multisig_slot_names_distinct(c);
    lemma_map_of(s);
    crate::maps::lemma_map_of_len(s);
    assert(s.len() == 9);
    assert(forall|i: int|
        0 <= i < 9 ==> #[trigger] map_of(s)[s[i].0] == s[i].1 && has_key(s, s[i].0));
    assert forall|k: Seq<char>| #[trigger] map_of(s).contains_key(k) <==> set![
        threshold_config_slot_name(),
        approver_public_keys_slot_name(),
        executed_transactions_slot_name(),
        procedure_thresholds_slot_name(),
        spent_interval_blocks_slot_name(),
        amount_limits_slot_name(),
        tier_threshold_config_slot_name(),
        oracle_config_slot_name(),
        get_price_proc_root_slot_name(),
    ].contains(k) by {
        if has_key(s, k) {
            let i = choose|i: int| 0 <= i < s.len() && s[i].0 == k;
            assert(0 <= i < 9);
        }
    }
    assert(map_of(s).dom() =~= set![
        threshold_config_slot_name(),
        approver_public_keys_slot_name(),
        executed_transactions_slot_name(),
        procedure_thresholds_slot_name(),
        spent_interval_blocks_slot_name(),
        amount_limits_slot_name(),
        tier_threshold_config_slot_name(),
        oracle_config_slot_name(),
        get_price_proc_root_slot_name(),
    ]);
    if has_key(s, spending_tracker_slot_name()) {
        let i = choose|i: int| 0 <= i < s.len() && s[i].0 == spending_tracker_slot_name();
        assert(s[i].0 != spending_tracker_slot_name());
    }
    // The approver map.
    let a = approver_entries(c.approvers);
    assert(keys_distinct(a)) by {
        assert forall|x: int, y: int| 0 <= x < y < a.len() implies a[x].0 != a[y].0 by {
            assert(a[x].0[0] != a[y].0[0]);
        }
    }
    lemma_map_of(a);
    assert forall|i: int| 0 <= i < c.approvers.len() implies #[trigger] map_of(a)[index_key(i)]
        == c.approvers[i] by {
        assert(a[i].0 == index_key(i));
    }
    assert forall|k: Seq<u64>| #[trigger] map_of(a).contains_key(k) <==> exists|i: int|
        0 <= i < c.approvers.len() && k == index_key(i) by {
        if exists|i: int| 0 <= i < c.approvers.len() && k == index_key(i) {
            let i = choose|i: int| 0 <= i < c.approvers.len() && k == index_key(i);
            assert(a[i].0 == k);
        }
    }
    // The procedure threshold map.
    let p = proc_threshold_entries(c.proc_thresholds);
    lemma_map_of(p);
    assert forall|k: int| 0 <= k < c.proc_thresholds.len() implies #[trigger] map_of(p)[c.proc_thresholds[k].0]
        == word_of_u32s(c.proc_thresholds[k].1, 0, 0, 0) by {
        assert(p[k].0 == c.proc_thresholds[k].0);
    }
    assert forall|root: Seq<u64>| #[trigger] map_of(p).contains_key(root) <==> exists|k: int|
        0 <= k < c.proc_thresholds.len() && root == c.proc_thresholds[k].0 by {
        if exists|k: int| 0 <= k < c.proc_thresholds.len() && root == c.proc_thresholds[k].0 {
            let k = choose|k: int| 0 <= k < c.proc_thresholds.len() && root == c.proc_thresholds[k].0;
            assert(p[k].0 == root);
        }
    }
}

} // verus!
