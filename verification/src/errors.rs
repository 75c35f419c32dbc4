//! Errors of account configuration and account storage.

use vstd::prelude::*;

verus! {

/// Errors raised while configuring account components or reading account storage.
#[derive(Clone, Copy, Debug, PartialEq, Eq, Structural)]
pub enum AccountError {
    /// A multisig threshold of zero.
    ThresholdIsZero,
    /// A multisig threshold above the number of approvers.
    ThresholdExceedsApprovers,
    /// The same approver public key given twice.
    DuplicateApprovers,
    /// A per-procedure threshold of zero.
    ProcedureThresholdIsZero,
    /// A per-procedure threshold above the number of approvers.
    ProcedureThresholdExceedsApprovers,
    /// Two storage slots with the same name.
    DuplicateStorageSlotName,
    /// No storage slot with the requested name.
    StorageSlotNameNotFound,
    /// A value was requested from a slot that holds a map.
    StorageSlotNotValue,
    /// A map entry was requested from a slot that holds a value.
    StorageSlotNotMap,
}

/// The text that describes an [`AccountError`].
pub open spec fn account_error_message(e: AccountError) -> Seq<char> {
    match e {
        AccountError::ThresholdIsZero => "threshold must be at least 1"@,
        AccountError::ThresholdExceedsApprovers =>
            "threshold cannot be greater than number of approvers"@,
        AccountError::DuplicateApprovers => "duplicate approver public keys are not allowed"@,
        AccountError::ProcedureThresholdIsZero => "procedure threshold must be at least 1"@,
        AccountError::ProcedureThresholdExceedsApprovers =>
            "procedure threshold cannot be greater than number of approvers"@,
        AccountError::DuplicateStorageSlotName => "duplicate storage slot name"@,
        AccountError::StorageSlotNameNotFound => "storage slot name not found"@,
        AccountError::StorageSlotNotValue => "storage slot does not hold a value"@,
        AccountError::StorageSlotNotMap => "storage slot does not hold a map"@,
    }
}

impl AccountError {
    /// The text that describes this error.
    pub fn message(&self) -> (r: String)
        ensures
            r@ == account_error_message(*self),
    {
        match self {
            AccountError::ThresholdIsZero => "threshold must be at least 1".to_owned(),
            AccountError::ThresholdExceedsApprovers =>
                "threshold cannot be greater than number of approvers".to_owned(),
            AccountError::DuplicateApprovers =>
                "duplicate approver public keys are not allowed".to_owned(),
            AccountError::ProcedureThresholdIsZero =>
                "procedure threshold must be at least 1".to_owned(),
            AccountError::ProcedureThresholdExceedsApprovers =>
                "procedure threshold cannot be greater than number of approvers".to_owned(),
            AccountError::DuplicateStorageSlotName => "duplicate storage slot name".to_owned(),
            AccountError::StorageSlotNameNotFound => "storage slot name not found".to_owned(),
            AccountError::StorageSlotNotValue => "storage slot does not hold a value".to_owned(),
            AccountError::StorageSlotNotMap => "storage slot does not hold a map".to_owned(),
        }
    }
}

} // verus!
