//! The error taxonomy: every check fails with the most specific kind
//! available, never with a generic failure.

use vstd::prelude::*;

verus! {

/// One distinct kind per violated rule, so callers can give precise
/// diagnostics.
#[derive(PartialEq, Eq, Structural, Clone, Copy, Debug)]
pub enum SmartAccountError {
    /// The signer registry holds more entries than the hard cap.
    TooManySigners,
    /// Two registry entries share the same identity.
    DuplicateSigner,
    /// A signer's permission mask has bits outside the three defined ones.
    UnknownPermission,
    /// No signer holds the Initiate capability.
    NoProposers,
    /// No signer holds the Execute capability.
    NoExecutors,
    /// No signer holds the Vote capability.
    NoVoters,
    /// The threshold is zero or exceeds the number of voters.
    InvalidThreshold,
    /// The stale watermark exceeds the current transaction index.
    InvalidStaleTransactionIndex,
    /// The time lock exceeds the maximum allowed.
    TimeLockExceedsMaxAllowed,
    /// The reclamation beneficiary is unset, so reclamation is disabled.
    RentReclamationDisabled,
    /// The supplied beneficiary address is not the configured one.
    InvalidRentCollector,
    /// The record belongs to a different smart account.
    TransactionForAnotherSmartAccount,
    /// The proposal belongs to a different smart account.
    ProposalForAnotherSmartAccount,
    /// The batch's index does not match the proposal's transaction index.
    TransactionNotMatchingProposal,
    /// The step being removed is not the current last one in its batch.
    TransactionNotLastInBatch,
    /// The proposal's status together with staleness forbids reclamation.
    InvalidProposalStatus,
    /// A batch may only be destroyed once all its steps are removed.
    BatchNotEmpty,
    /// The identity to remove is not in the registry.
    NotASigner,
    /// The storage account's registered owner is not the expected program.
    IllegalAccountOwner,
    /// A required funding-source or payer reference is missing.
    MissingAccount,
    /// A supplied account is not the expected one.
    InvalidAccount,
}

} // verus!
