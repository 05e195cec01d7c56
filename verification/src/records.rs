//! The record kinds a proposal can be attached to, and the proposal itself.
//! This core only reads a proposal's status; the voting logic that advances
//! it lives elsewhere.

use crate::identity::PublicIdentity;
use vstd::prelude::*;

verus! {

/// Lifecycle states of a proposal. Transitions among them are produced by
/// the out-of-scope voting and execution logic.
#[derive(PartialEq, Eq, Structural, Clone, Copy, Debug)]
pub enum ProposalStatus {
    Draft,
    Active,
    Approved,
    Rejected,
    Executed,
    Cancelled,
    Executing,
}

/// The voting record attached to exactly one transaction or batch.
#[derive(PartialEq, Eq, Structural, Clone, Copy, Debug)]
pub struct Proposal {
    /// The smart account the proposal belongs to.
    pub settings: PublicIdentity,
    /// Index of the transaction or batch this proposal is tied to.
    pub transaction_index: u64,
    /// Current lifecycle status.
    pub status: ProposalStatus,
}

/// A config-change record: a governance change to the settings themselves.
#[derive(PartialEq, Eq, Structural, Clone, Copy, Debug)]
pub struct SettingsTransaction {
    /// The smart account the record belongs to.
    pub settings: PublicIdentity,
    /// Sequence index assigned at creation, the staleness comparison key.
    pub index: u64,
}

/// A vault-action record: a single externally-triggered action.
#[derive(PartialEq, Eq, Structural, Clone, Copy, Debug)]
pub struct Transaction {
    /// The smart account the record belongs to.
    pub settings: PublicIdentity,
    /// Sequence index assigned at creation, the staleness comparison key.
    pub index: u64,
}

/// A batch record: an ordered sequence of sub-steps under one proposal.
#[derive(PartialEq, Eq, Structural, Clone, Copy, Debug)]
pub struct Batch {
    /// The smart account the record belongs to.
    pub settings: PublicIdentity,
    /// Sequence index assigned at creation, the staleness comparison key.
    pub index: u64,
    /// Count of still-open sub-steps; they are removed strictly last-first.
    pub size: u32,
}

/// One sub-step of a batch. Its position in the batch is implicit: only the
/// step at position `batch.size` may be removed.
#[derive(PartialEq, Eq, Structural, Clone, Copy, Debug)]
pub struct BatchTransaction {
    /// Bump byte of the step's derived address.
    pub bump: u8,
}

} // verus!
