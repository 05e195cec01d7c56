//! The reclamation policy engine: given a record's kind, its proposal's
//! status (the proposal may already be gone) and the record's staleness, it
//! decides whether the record and its proposal may be destroyed and their
//! reserved balance returned to the configured beneficiary. The three record
//! kinds share one decision table up to a single cell, and batches add two
//! rules of their own: steps leave strictly last-first, and the batch itself
//! only once it is empty.

use crate::errors::SmartAccountError;
use crate::identity::{spec_identity_bytes, PublicIdentity};
use crate::records::{
    Batch, BatchTransaction, Proposal, ProposalStatus, SettingsTransaction, Transaction,
};
use crate::settings::Settings;
use vstd::bytes::{spec_u32_to_le_bytes, spec_u64_to_le_bytes, u32_to_le_bytes, u64_to_le_bytes};
use vstd::prelude::*;

verus! {

/// Seed tag that keeps batch-step addresses apart from every other address
/// the program derives.
pub const BATCH_TRANSACTION_SEED_TAG: u8 = 4;

/// The record kind whose column of the decision table applies.
#[derive(PartialEq, Eq, Structural, Clone, Copy, Debug)]
pub enum RecordKind {
    SettingsChange,
    VaultAction,
    Batch,
}

/// The status of a record's proposal, where the proposal may never have been
/// created or may already have been reclaimed.
pub open spec fn status_of(proposal: Option<Proposal>) -> Option<ProposalStatus> {
    match proposal {
        Some(p) => Some(p.status),
        None => None,
    }
}

/// The decision table. Without a proposal, any record is reclaimable exactly
/// when stale. With one: Draft and Active are reclaimable exactly when
/// stale; Rejected, Executed and Cancelled always; Executing never; and
/// Approved — still executable for vault-actions and batches — is never
/// reclaimable for those, while for a config-change it is reclaimable when
/// stale, because a stale config-change can no longer be executed.
pub open spec fn spec_can_close(
    kind: RecordKind,
    status: Option<ProposalStatus>,
    is_stale: bool,
) -> bool {
    match status {
        None => is_stale,
        Some(st) => match st {
            ProposalStatus::Draft => is_stale,
            ProposalStatus::Active => is_stale,
            ProposalStatus::Approved => kind is SettingsChange && is_stale,
            ProposalStatus::Rejected => true,
            ProposalStatus::Executed => true,
            ProposalStatus::Cancelled => true,
            ProposalStatus::Executing => false,
        },
    }
}

/// Executable form of the decision table.
pub fn can_close(kind: RecordKind, status: Option<ProposalStatus>, is_stale: bool) -> (r: bool)
    ensures
        r == spec_can_close(kind, status, is_stale),
{
    match status {
        None => is_stale,
        Some(st) => match st {
            ProposalStatus::Draft => is_stale,
            ProposalStatus::Active => is_stale,
            ProposalStatus::Approved => matches!(kind, RecordKind::SettingsChange) && is_stale,
            ProposalStatus::Rejected => true,
            ProposalStatus::Executed => true,
            ProposalStatus::Cancelled => true,
            ProposalStatus::Executing => false,
        },
    }
}

/// The vault-action and batch columns of the table agree everywhere, and the
/// config-change column differs from them in exactly one cell: a stale
/// record whose proposal is Approved.
pub proof fn lemma_policy_columns(status: Option<ProposalStatus>, is_stale: bool)
    ensures
        spec_can_close(RecordKind::VaultAction, status, is_stale) == spec_can_close(
            RecordKind::Batch,
            status,
            is_stale,
        ),
        (spec_can_close(RecordKind::SettingsChange, status, is_stale) != spec_can_close(
            RecordKind::VaultAction,
            status,
            is_stale,
        )) <==> (status == Some(ProposalStatus::Approved) && is_stale),
{
}

/// What the host's deterministic address derivation returns for the given
/// seed byte strings and program address: an address, or nothing where the
/// derivation fails.
pub uninterp spec fn derived_address_of(
    seeds: Seq<Seq<u8>>,
    program_hi: u128,
    program_lo: u128,
) -> Option<(u128, u128)>;

/// Relies on `Pubkey::create_program_address` (anchor_lang's re-export of
/// solana-address's `Address::create_program_address`): the result is a
/// SHA-256 over the seed byte strings and the program address, so it depends
/// on the arguments alone, and the call fails exactly when a seed is
/// over-long or the hash lands on the Ed25519 curve, which likewise depends
/// on the arguments alone.
#[verifier::external_body]
fn derive_program_address(seeds: &Vec<Vec<u8>>, program_id: &PublicIdentity) -> (r: Option<
    PublicIdentity,
>)
    ensures
        r matches Some(id) ==> derived_address_of(
            seeds@.map_values(|s: Vec<u8>| s@),
            program_id.hi,
            program_id.lo,
        ) == Some((id.hi, id.lo)),
        r is None ==> derived_address_of(
            seeds@.map_values(|s: Vec<u8>| s@),
            program_id.hi,
            program_id.lo,
        ) is None,
{
    let mut pid = [0u8; 32];
    pid[..16].copy_from_slice(&program_id.hi.to_le_bytes());
    pid[16..].copy_from_slice(&program_id.lo.to_le_bytes());
    let refs: Vec<&[u8]> = seeds.iter().map(|s| s.as_slice()).collect();
    let program = anchor_lang::prelude::Pubkey::new_from_array(pid);
    match anchor_lang::prelude::Pubkey::create_program_address(&refs, &program) {
        Ok(pk) => {
            let b = pk.to_bytes();
            Some(PublicIdentity {
                hi: u128::from_le_bytes(b[..16].try_into().unwrap()),
                lo: u128::from_le_bytes(b[16..].try_into().unwrap()),
            })
        },
        Err(_) => None,
    }
}

/// The seed byte strings from which a batch step's address is derived: the
/// domain tag, the owning settings record's address, the batch's index, the
/// step's position, and the step's bump byte.
pub open spec fn spec_batch_step_seeds(
    settings_key: PublicIdentity,
    batch_index: u64,
    position: u32,
    bump: u8,
) -> Seq<Seq<u8>> {
    seq![
        seq![BATCH_TRANSACTION_SEED_TAG],
        spec_identity_bytes(settings_key),
        spec_u64_to_le_bytes(batch_index),
        spec_u32_to_le_bytes(position),
        seq![bump],
    ]
}

/// The address the step at `position` of the given batch occupies, where the
/// derivation succeeds.
pub open spec fn spec_batch_step_address(
    settings_key: PublicIdentity,
    batch_index: u64,
    position: u32,
    bump: u8,
    program_id: PublicIdentity,
) -> Option<PublicIdentity> {
    match derived_address_of(
        spec_batch_step_seeds(settings_key, batch_index, position, bump),
        program_id.hi,
        program_id.lo,
    ) {
        Some(hl) => Some(PublicIdentity { hi: hl.0, lo: hl.1 }),
        None => None,
    }
}

/// Recompute the address the step at `position` of the batch would occupy,
/// with the same derivation the creation path used.
fn derive_batch_step_address(
    settings_key: &PublicIdentity,
    batch_index: u64,
    position: u32,
    bump: u8,
    program_id: &PublicIdentity,
) -> (r: Option<PublicIdentity>)
    ensures
        r == spec_batch_step_address(*settings_key, batch_index, position, bump, *program_id),
{
    let mut seeds: Vec<Vec<u8>> = Vec::new();
    let mut tag: Vec<u8> = Vec::new();
    tag.push(BATCH_TRANSACTION_SEED_TAG);
    seeds.push(tag);
    seeds.push(settings_key.to_bytes());
    seeds.push(u64_to_le_bytes(batch_index));
    seeds.push(u32_to_le_bytes(position));
    let mut bump_seed: Vec<u8> = Vec::new();
    bump_seed.push(bump);
    seeds.push(bump_seed);
    proof {
        let view = seeds@.map_values(|s: Vec<u8>| s@);
        let want = spec_batch_step_seeds(*settings_key, batch_index, position, bump);
        assert(view.len() == 5);
        assert(view[0] =~= want[0]);
        assert(view[1] =~= want[1]);
        assert(view[2] =~= want[2]);
        assert(view[3] =~= want[3]);
        assert(view[4] =~= want[4]);
        assert(view =~= want);
    }
    derive_program_address(&seeds, program_id)
}

/// The optional proposal, where present, belongs to the given smart account.
pub open spec fn proposal_owned_by(proposal: Option<Proposal>, settings_key: PublicIdentity) -> bool {
    match proposal {
        Some(p) => p.settings == settings_key,
        None => true,
    }
}

/// The optional proposal, where present, is tied to the record at `index`.
pub open spec fn proposal_matches_index(proposal: Option<Proposal>, index: u64) -> bool {
    match proposal {
        Some(p) => p.transaction_index == index,
        None => true,
    }
}

/// Closing a config-change record: the settings, the record, its proposal if
/// one still exists, and the beneficiary address the caller supplied.
pub struct CloseSettingsTransaction {
    /// The governance settings of the smart account.
    pub settings: Settings,
    /// Address of the settings record.
    pub settings_key: PublicIdentity,
    /// The config-change record being closed.
    pub transaction: SettingsTransaction,
    /// The record's proposal, where one still exists.
    pub proposal: Option<Proposal>,
    /// The beneficiary address supplied by the caller.
    pub rent_collector: PublicIdentity,
}

impl CloseSettingsTransaction {
    /// The exact outcome: the first failed precondition's error — beneficiary
    /// configured, the supplied proposal verified to belong to this smart
    /// account and to this very record, the record's own linkage, the
    /// beneficiary address — else the config-change column of the decision
    /// table.
    pub open spec fn spec_close_decision(self) -> Result<(), SmartAccountError> {
        if self.settings.rent_collector is None {
            Err(SmartAccountError::RentReclamationDisabled)
        } else if !proposal_owned_by(self.proposal, self.settings_key) {
            Err(SmartAccountError::ProposalForAnotherSmartAccount)
        } else if self.transaction.settings != self.settings_key {
            Err(SmartAccountError::TransactionForAnotherSmartAccount)
        } else if !proposal_matches_index(self.proposal, self.transaction.index) {
            Err(SmartAccountError::TransactionNotMatchingProposal)
        } else if Some(self.rent_collector) != self.settings.rent_collector {
            Err(SmartAccountError::InvalidRentCollector)
        } else if !spec_can_close(
            RecordKind::SettingsChange,
            status_of(self.proposal),
            self.settings.spec_is_stale(self.transaction.index),
        ) {
            Err(SmartAccountError::InvalidProposalStatus)
        } else {
            Ok(())
        }
    }

    /// Decide whether the config-change record and its proposal may be
    /// destroyed. On success the caller destroys the proposal (if present)
    /// and then the record, crediting the beneficiary; on failure nothing
    /// may be touched.
    pub fn close_settings_transaction(&self) -> (r: Result<(), SmartAccountError>)
        ensures
            r == self.spec_close_decision(),
    {
        let collector = match self.settings.rent_collector {
            Some(c) => c,
            None => {
                return Err(SmartAccountError::RentReclamationDisabled);
            },
        };
        if let Some(p) = &self.proposal {
            if !(p.settings == self.settings_key) {
                return Err(SmartAccountError::ProposalForAnotherSmartAccount);
            }
        }
        if !(self.transaction.settings == self.settings_key) {
            return Err(SmartAccountError::TransactionForAnotherSmartAccount);
        }
        if let Some(p) = &self.proposal {
            if p.transaction_index != self.transaction.index {
                return Err(SmartAccountError::TransactionNotMatchingProposal);
            }
        }
        if !(self.rent_collector == collector) {
            return Err(SmartAccountError::InvalidRentCollector);
        }
        let is_stale = self.settings.is_stale(self.transaction.index);
        let status = match &self.proposal {
            Some(p) => Some(p.status),
            None => None,
        };
        if !can_close(RecordKind::SettingsChange, status, is_stale) {
            return Err(SmartAccountError::InvalidProposalStatus);
        }
        Ok(())
    }
}

/// Closing a vault-action record: the settings, the record, its proposal if
/// one still exists, and the beneficiary address the caller supplied.
pub struct CloseTransaction {
    /// The governance settings of the smart account.
    pub settings: Settings,
    /// Address of the settings record.
    pub settings_key: PublicIdentity,
    /// The vault-action record being closed.
    pub transaction: Transaction,
    /// The record's proposal, where one still exists.
    pub proposal: Option<Proposal>,
    /// The beneficiary address supplied by the caller.
    pub rent_collector: PublicIdentity,
}

impl CloseTransaction {
    /// The exact outcome: the first failed precondition's error — beneficiary
    /// configured, the supplied proposal verified to belong to this smart
    /// account and to this very record, the record's own linkage, the
    /// beneficiary address — else the vault-action column of the decision
    /// table.
    pub open spec fn spec_close_decision(self) -> Result<(), SmartAccountError> {
        if self.settings.rent_collector is None {
            Err(SmartAccountError::RentReclamationDisabled)
        } else if !proposal_owned_by(self.proposal, self.settings_key) {
            Err(SmartAccountError::ProposalForAnotherSmartAccount)
        } else if self.transaction.settings != self.settings_key {
            Err(SmartAccountError::TransactionForAnotherSmartAccount)
        } else if !proposal_matches_index(self.proposal, self.transaction.index) {
            Err(SmartAccountError::TransactionNotMatchingProposal)
        } else if Some(self.rent_collector) != self.settings.rent_collector {
            Err(SmartAccountError::InvalidRentCollector)
        } else if !spec_can_close(
            RecordKind::VaultAction,
            status_of(self.proposal),
            self.settings.spec_is_stale(self.transaction.index),
        ) {
            Err(SmartAccountError::InvalidProposalStatus)
        } else {
            Ok(())
        }
    }

    /// Decide whether the vault-action record and its proposal may be
    /// destroyed. An Approved proposal keeps the record alive even when
    /// stale: it can still be executed.
    pub fn close_transaction(&self) -> (r: Result<(), SmartAccountError>)
        ensures
            r == self.spec_close_decision(),
    {
        let collector = match self.settings.rent_collector {
            Some(c) => c,
            None => {
                return Err(SmartAccountError::RentReclamationDisabled);
            },
        };
        if let Some(p) = &self.proposal {
            if !(p.settings == self.settings_key) {
                return Err(SmartAccountError::ProposalForAnotherSmartAccount);
            }
        }
        if !(self.transaction.settings == self.settings_key) {
            return Err(SmartAccountError::TransactionForAnotherSmartAccount);
        }
        if let Some(p) = &self.proposal {
            if p.transaction_index != self.transaction.index {
                return Err(SmartAccountError::TransactionNotMatchingProposal);
            }
        }
        if !(self.rent_collector == collector) {
            return Err(SmartAccountError::InvalidRentCollector);
        }
        let is_stale = self.settings.is_stale(self.transaction.index);
        let status = match &self.proposal {
            Some(p) => Some(p.status),
            None => None,
        };
        if !can_close(RecordKind::VaultAction, status, is_stale) {
            return Err(SmartAccountError::InvalidProposalStatus);
        }
        Ok(())
    }
}

/// Removing one step from a batch: the settings, the batch's proposal, the
/// batch, the step with its address, the beneficiary address the caller
/// supplied, and the program identity under which step addresses derive.
pub struct CloseBatchTransaction {
    /// The governance settings of the smart account.
    pub settings: Settings,
    /// Address of the settings record.
    pub settings_key: PublicIdentity,
    /// The batch's proposal; steps share it, there is none per step.
    pub proposal: Proposal,
    /// The batch the step belongs to.
    pub batch: Batch,
    /// The step being removed.
    pub transaction: BatchTransaction,
    /// Address of the step being removed.
    pub transaction_key: PublicIdentity,
    /// The beneficiary address supplied by the caller.
    pub rent_collector: PublicIdentity,
    /// The program identity under which the step's address was derived.
    pub program_id: PublicIdentity,
}

impl CloseBatchTransaction {
    /// The exact outcome: the first failed precondition's error; then the
    /// ordering guard — the step's address must equal the address the
    /// current last position derives to; then the batch column of the
    /// decision table, evaluated against the batch's shared proposal.
    pub open spec fn spec_validate(self) -> Result<(), SmartAccountError> {
        if self.settings.rent_collector is None {
            Err(SmartAccountError::RentReclamationDisabled)
        } else if self.proposal.settings != self.settings_key {
            Err(SmartAccountError::ProposalForAnotherSmartAccount)
        } else if self.batch.settings != self.settings_key {
            Err(SmartAccountError::TransactionForAnotherSmartAccount)
        } else if self.batch.index != self.proposal.transaction_index {
            Err(SmartAccountError::TransactionNotMatchingProposal)
        } else if Some(self.rent_collector) != self.settings.rent_collector {
            Err(SmartAccountError::InvalidRentCollector)
        } else if self.batch.size == 0 {
            // an empty batch has no last step left to remove
            Err(SmartAccountError::TransactionNotLastInBatch)
        } else {
            match spec_batch_step_address(
                self.settings_key,
                self.batch.index,
                self.batch.size,
                self.transaction.bump,
                self.program_id,
            ) {
                None => Err(SmartAccountError::TransactionNotLastInBatch),
                Some(last) => if self.transaction_key != last {
                    Err(SmartAccountError::TransactionNotLastInBatch)
                } else if !spec_can_close(
                    RecordKind::Batch,
                    Some(self.proposal.status),
                    self.settings.spec_is_stale(self.proposal.transaction_index),
                ) {
                    Err(SmartAccountError::InvalidProposalStatus)
                } else {
                    Ok(())
                },
            }
        }
    }

    /// Run every check of `spec_validate` without touching anything.
    pub fn validate(&self) -> (r: Result<(), SmartAccountError>)
        ensures
            r == self.spec_validate(),
    {
        let collector = match self.settings.rent_collector {
            Some(c) => c,
            None => {
                return Err(SmartAccountError::RentReclamationDisabled);
            },
        };
        if !(self.proposal.settings == self.settings_key) {
            return Err(SmartAccountError::ProposalForAnotherSmartAccount);
        }
        if !(self.batch.settings == self.settings_key) {
            return Err(SmartAccountError::TransactionForAnotherSmartAccount);
        }
        if self.batch.index != self.proposal.transaction_index {
            return Err(SmartAccountError::TransactionNotMatchingProposal);
        }
        if !(self.rent_collector == collector) {
            return Err(SmartAccountError::InvalidRentCollector);
        }
        if self.batch.size == 0 {
            return Err(SmartAccountError::TransactionNotLastInBatch);
        }
        let last_transaction_address = match derive_batch_step_address(
            &self.settings_key,
            self.batch.index,
            self.batch.size,
            self.transaction.bump,
            &self.program_id,
        ) {
            Some(addr) => addr,
            None => {
                return Err(SmartAccountError::TransactionNotLastInBatch);
            },
        };
        if !(self.transaction_key == last_transaction_address) {
            return Err(SmartAccountError::TransactionNotLastInBatch);
        }
        let is_proposal_stale = self.settings.is_stale(self.proposal.transaction_index);
        if !can_close(RecordKind::Batch, Some(self.proposal.status), is_proposal_stale) {
            return Err(SmartAccountError::InvalidProposalStatus);
        }
        Ok(())
    }

    /// Remove the batch's current last step: validate everything, then
    /// decrement `batch.size` by exactly one. On failure nothing changes.
    /// The caller destroys the step's record only on success.
    pub fn close_batch_transaction(&mut self) -> (r: Result<(), SmartAccountError>)
        ensures
            r == old(self).spec_validate(),
            r is Ok ==> final(self).batch.size == old(self).batch.size - 1,
            r is Ok ==> final(self).batch == (Batch {
                size: final(self).batch.size,
                ..old(self).batch
            }),
            r is Ok ==> (*final(self) == (CloseBatchTransaction {
                batch: final(self).batch,
                ..*old(self)
            })),
            r is Err ==> *final(self) == *old(self),
    {
        match self.validate() {
            Err(e) => Err(e),
            Ok(()) => {
                self.batch.size = self.batch.size - 1;
                Ok(())
            },
        }
    }
}

/// Closing a batch record: the settings, the batch, its proposal if one
/// still exists, and the beneficiary address the caller supplied.
pub struct CloseBatch {
    /// The governance settings of the smart account.
    pub settings: Settings,
    /// Address of the settings record.
    pub settings_key: PublicIdentity,
    /// The batch's proposal, where one still exists.
    pub proposal: Option<Proposal>,
    /// The batch being closed.
    pub batch: Batch,
    /// The beneficiary address supplied by the caller.
    pub rent_collector: PublicIdentity,
}

impl CloseBatch {
    /// The exact outcome: the first failed precondition's error — beneficiary
    /// configured, the supplied proposal verified to belong to this smart
    /// account and to this very batch, the batch's own linkage, the
    /// beneficiary address; a batch still holding steps fails with
    /// `BatchNotEmpty` whatever its status and staleness; else the batch
    /// column of the decision table.
    pub open spec fn spec_close_decision(self) -> Result<(), SmartAccountError> {
        if self.settings.rent_collector is None {
            Err(SmartAccountError::RentReclamationDisabled)
        } else if !proposal_owned_by(self.proposal, self.settings_key) {
            Err(SmartAccountError::ProposalForAnotherSmartAccount)
        } else if self.batch.settings != self.settings_key {
            Err(SmartAccountError::TransactionForAnotherSmartAccount)
        } else if !proposal_matches_index(self.proposal, self.batch.index) {
            Err(SmartAccountError::TransactionNotMatchingProposal)
        } else if Some(self.rent_collector) != self.settings.rent_collector {
            Err(SmartAccountError::InvalidRentCollector)
        } else if self.batch.size != 0 {
            Err(SmartAccountError::BatchNotEmpty)
        } else if !spec_can_close(
            RecordKind::Batch,
            status_of(self.proposal),
            self.settings.spec_is_stale(self.batch.index),
        ) {
            Err(SmartAccountError::InvalidProposalStatus)
        } else {
            Ok(())
        }
    }

    /// Decide whether the batch record and its proposal may be destroyed.
    /// Only an empty batch — every step already removed — qualifies.
    pub fn close_batch(&self) -> (r: Result<(), SmartAccountError>)
        ensures
            r == self.spec_close_decision(),
    {
        let collector = match self.settings.rent_collector {
            Some(c) => c,
            None => {
                return Err(SmartAccountError::RentReclamationDisabled);
            },
        };
        if let Some(p) = &self.proposal {
            if !(p.settings == self.settings_key) {
                return Err(SmartAccountError::ProposalForAnotherSmartAccount);
            }
        }
        if !(self.batch.settings == self.settings_key) {
            return Err(SmartAccountError::TransactionForAnotherSmartAccount);
        }
        if let Some(p) = &self.proposal {
            if p.transaction_index != self.batch.index {
                return Err(SmartAccountError::TransactionNotMatchingProposal);
            }
        }
        if !(self.rent_collector == collector) {
            return Err(SmartAccountError::InvalidRentCollector);
        }
        if self.batch.size != 0 {
            return Err(SmartAccountError::BatchNotEmpty);
        }
        let is_stale = self.settings.is_stale(self.batch.index);
        let status = match &self.proposal {
            Some(p) => Some(p.status),
            None => None,
        };
        if !can_close(RecordKind::Batch, status, is_stale) {
            return Err(SmartAccountError::InvalidProposalStatus);
        }
        Ok(())
    }
}

/// A batch is dismantled strictly last step first: when every account-level
/// precondition holds but the supplied step is not the one at the batch's
/// current last position — its address differs from the derived one, no
/// address derives, or no step is left — removing it fails with the ordering
/// error. By the mutation contract of `close_batch_transaction`, a failed
/// attempt never changes `batch.size`.
pub proof fn lemma_step_close_out_of_order(c: CloseBatchTransaction)
    requires
        c.settings.rent_collector is Some,
        c.proposal.settings == c.settings_key,
        c.batch.settings == c.settings_key,
        c.batch.index == c.proposal.transaction_index,
        Some(c.rent_collector) == c.settings.rent_collector,
        (match spec_batch_step_address(
            c.settings_key,
            c.batch.index,
            c.batch.size,
            c.transaction.bump,
            c.program_id,
        ) {
            Some(last) => c.transaction_key != last,
            None => true,
        }),
    ensures
        c.spec_validate() == Err::<(), SmartAccountError>(
            SmartAccountError::TransactionNotLastInBatch,
        ),
{
}

/// A batch that still holds open steps is never destroyed: when the
/// account-level preconditions hold and `batch.size > 0`, closing the batch
/// fails with the batch-not-empty error, whatever the proposal's status and
/// the record's staleness.
pub proof fn lemma_close_batch_not_empty(c: CloseBatch)
    requires
        c.settings.rent_collector is Some,
        proposal_owned_by(c.proposal, c.settings_key),
        c.batch.settings == c.settings_key,
        proposal_matches_index(c.proposal, c.batch.index),
        Some(c.rent_collector) == c.settings.rent_collector,
        c.batch.size > 0,
    ensures
        c.spec_close_decision() == Err::<(), SmartAccountError>(SmartAccountError::BatchNotEmpty),
{
}

} // verus!
