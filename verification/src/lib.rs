//! Standard account components and notes of the Miden protocol: the multisig authentication
//! component with spending limits and the storage that it lays out, authentication schemes,
//! network accounts, and the standard P2ID, P2IDE, SWAP, MINT and BURN notes, together with the
//! field elements, words and account storage they are built on.

mod account;
mod auth_scheme;
mod errors;
mod field;
mod hash;
mod maps;
mod multisig;
mod network_account;
mod note;
mod storage;

pub use account::{
    commitment_views, Account, AccountComponent, ComponentLibrary, AccountId, AccountStorageMode,
    PublicKeyCommitment,
};
pub use auth_scheme::AuthScheme;
pub use errors::{account_error_message, AccountError};
pub use field::{word_of_felts, word_of_u32s, Felt, Word, FELT_MODULUS};
pub use hash::{felt_views, rpo256_hash_elements_of, rpo256_merge_of};
pub use maps::{has_key, keys_distinct, lemma_map_of, lemma_map_of_len, map_of};
pub use multisig::{
    amount_limits_slot_name, approver_count, approver_entries, approver_public_keys_slot_name,
    config_error, executed_transactions_slot_name, get_price_proc_root_slot_name, index_key,
    lemma_multisig_slot_names_distinct, lemma_multisig_storage_reads, multisig_slot_views,
    multisig_storage, oracle_config_slot_name, proc_threshold_entries, proc_threshold_error,
    proc_threshold_views, procedure_thresholds_slot_name, spending_tracker_slot_name,
    spent_interval_blocks_slot_name, storable, threshold_config_slot_name,
    tier_threshold_config_slot_name, AuthMultisigSpendingLimits, AuthMultisigSpendingLimitsConfig,
    MultisigConfigView, ConfigStep, apply_config_step, apply_config_steps,
    lemma_builders_keep_approvers_and_threshold, lemma_config_error_cases,
};
pub use network_account::{
    allowlist_of, is_network_account, note_allowlist_slot_name, root_views, NetworkAccount,
    NetworkAccountNoteAllowlist, NetworkAccountNoteAllowlistError, NoteScriptRoot,
};
pub use note::{
    account_tag_value, asset_views, assets_pairwise_distinct, has_repeated_asset,
    lemma_account_tag_layout, lemma_execution_hint_layout, lemma_note_assets_error_cases, lemma_p2ide_inputs_positions, lemma_swap_tag_layout, build_p2id_recipient, build_p2ide_recipient, build_swap_tag,
    create_burn_note, create_mint_note, create_p2id_note, create_p2ide_note, create_swap_note,
    note_assets_error, note_error_message, p2id_inputs, p2ide_execution_hint, p2ide_inputs, recipient_digest,
    swap_note_inputs, swap_tag_value, Note, NoteAssets, NoteDetails, NoteError,
    NoteExecutionHint, NoteInputs, NoteMetadata, NoteRecipient, NoteScript, NoteTag, NoteType,
    MAX_ASSETS_PER_NOTE, MAX_INPUTS_PER_NOTE,
};
pub use storage::{
    entry_views, slot_views, AccountStorage, SlotContentView, StorageMap, StorageMapError,
    StorageSlot, StorageSlotContent, StorageSlotName,
};
