//! The governance configuration of a smart account: the sorted signer
//! registry, the voting threshold, the time lock, the transaction-index
//! counters with the staleness watermark, and the optional reclamation
//! beneficiary — together with the structural invariant enforced after every
//! mutation and the capacity plan for growing the backing storage.

use crate::errors::SmartAccountError;
use crate::identity::{id_le, PublicIdentity};
use crate::permissions::{Permission, Permissions};
use vstd::prelude::*;

verus! {

/// Maximum time lock: three months, in seconds.
pub const MAX_TIME_LOCK: u32 = 3 * 30 * 24 * 60 * 60;

/// Hard cap on the number of registry entries.
pub const MAX_SIGNERS: usize = 65535;

/// Bytes one registry entry occupies in the backing storage: a 32-byte
/// identity and a one-byte permission mask.
pub const SMART_ACCOUNT_SIGNER_SPACE: usize = 32 + 1;

/// One registry entry: an identity with its capabilities.
#[derive(PartialEq, Eq, Structural, Clone, Copy, Debug)]
pub struct SmartAccountSigner {
    pub key: PublicIdentity,
    pub permissions: Permissions,
}

/// The registry is sorted by identity.
pub open spec fn signers_sorted(s: Seq<SmartAccountSigner>) -> bool {
    forall|i: int, j: int| 0 <= i < j < s.len() ==> id_le(s[i].key, s[j].key)
}

/// No two entries share an identity.
pub open spec fn no_duplicate_keys(s: Seq<SmartAccountSigner>) -> bool {
    forall|i: int, j: int| 0 <= i < j < s.len() ==> s[i].key != s[j].key
}

/// No two adjacent entries share an identity; on a sorted registry this is
/// the same as `no_duplicate_keys`, and it is what one scan can check.
pub open spec fn no_adjacent_duplicate_keys(s: Seq<SmartAccountSigner>) -> bool {
    forall|i: int| 0 <= i && i + 1 < s.len() ==> (#[trigger] s[i]).key != s[i + 1].key
}

/// Every permission mask stays below 8: only the three defined bits.
pub open spec fn all_permissions_known(s: Seq<SmartAccountSigner>) -> bool {
    forall|i: int| 0 <= i < s.len() ==> s[i].permissions.mask < 8
}

/// How many entries hold capability `p`.
pub open spec fn count_permission(s: Seq<SmartAccountSigner>, p: Permission) -> int
    decreases s.len(),
{
    if s.len() == 0 {
        0
    } else {
        count_permission(s.drop_last(), p) + if s.last().permissions.spec_has(p) {
            1int
        } else {
            0int
        }
    }
}

/// The position at which an entry with key `k` is inserted: just after every
/// entry whose key comes no later than `k`.
pub open spec fn insert_pos(s: Seq<SmartAccountSigner>, k: PublicIdentity) -> int
    decreases s.len(),
{
    if s.len() == 0 {
        0
    } else if id_le(s[0].key, k) {
        1 + insert_pos(s.drop_first(), k)
    } else {
        0
    }
}

proof fn lemma_count_permission_step(s: Seq<SmartAccountSigner>, p: Permission, i: int)
    requires
        0 <= i < s.len(),
    ensures
        count_permission(s.take(i + 1), p) == count_permission(s.take(i), p) + if s[
            i
        ].permissions.spec_has(p) {
            1int
        } else {
            0int
        },
{
    assert(s.take(i + 1).drop_last() =~= s.take(i));
    assert(s.take(i + 1).last() == s[i]);
}

/// Counts never exceed the registry's length.
proof fn lemma_count_permission_le_len(s: Seq<SmartAccountSigner>, p: Permission)
    ensures
        0 <= count_permission(s, p) <= s.len(),
    decreases s.len(),
{
    if s.len() > 0 {
        lemma_count_permission_le_len(s.drop_last(), p);
    }
}

/// `insert_pos` is the first position whose entry's key comes after `k`.
proof fn lemma_insert_pos(s: Seq<SmartAccountSigner>, k: PublicIdentity)
    ensures
        0 <= insert_pos(s, k) <= s.len(),
        forall|j: int| 0 <= j < insert_pos(s, k) ==> id_le(s[j].key, k),
        insert_pos(s, k) < s.len() ==> !id_le(s[insert_pos(s, k)].key, k),
    decreases s.len(),
{
    if s.len() > 0 && id_le(s[0].key, k) {
        lemma_insert_pos(s.drop_first(), k);
        assert forall|j: int| 0 <= j < insert_pos(s, k) implies id_le(s[j].key, k) by {
            if j > 0 {
                assert(s.drop_first()[j - 1] == s[j]);
            }
        }
        if insert_pos(s, k) < s.len() {
            assert(s.drop_first()[insert_pos(s, k) - 1] == s[insert_pos(s, k)]);
        }
    }
}

/// On a sorted registry, adjacent distinctness is full uniqueness.
pub proof fn lemma_sorted_adjacent_unique(s: Seq<SmartAccountSigner>)
    requires
        signers_sorted(s),
        no_adjacent_duplicate_keys(s),
    ensures
        no_duplicate_keys(s),
{
    assert forall|i: int, j: int| 0 <= i < j < s.len() implies s[i].key != s[j].key by {
        if s[i].key == s[j].key {
            // the entry right after `i` is wedged between two equal keys
            assert(id_le(s[i].key, s[i + 1].key));
            if i + 1 < j {
                assert(id_le(s[i + 1].key, s[j].key));
            }
            assert(s[i + 1].key == s[i].key);
        }
    }
}

/// What a grow-if-needed request decides: whether the backing storage must be
/// reallocated, the size it must have, and the lamports still missing from
/// the reserved balance at that size.
#[derive(PartialEq, Eq, Structural, Clone, Copy, Debug)]
pub struct ReallocOutcome {
    pub reallocated: bool,
    pub new_size: usize,
    pub top_up: u64,
}

/// The governance configuration of one smart account.
#[derive(Clone, Debug)]
pub struct Settings {
    /// Key that seeds the settings record's derived address.
    pub seed: PublicIdentity,
    /// Authority that may change these settings directly; the all-zero
    /// identity by convention means the account is autonomous.
    pub settings_authority: PublicIdentity,
    /// Minimum approving votes for a proposal to pass.
    pub threshold: u16,
    /// Seconds between voting settlement and execution.
    pub time_lock: u32,
    /// Index of the last created transaction; 0 means none yet.
    pub transaction_index: u64,
    /// Staleness watermark: every transaction index at or below it is stale.
    pub stale_transaction_index: u64,
    /// Where reclaimed storage balances go; `None` disables reclamation.
    pub rent_collector: Option<PublicIdentity>,
    /// Bump byte of the settings record's derived address.
    pub bump: u8,
    /// The signer registry, sorted by identity.
    pub signers: Vec<SmartAccountSigner>,
}

impl Settings {
    /// The registry is sorted and duplicate-free.
    pub open spec fn wf(self) -> bool {
        signers_sorted(self.signers@) && no_duplicate_keys(self.signers@)
    }

    /// Index `index` is at or below the staleness watermark.
    pub open spec fn spec_is_stale(self, index: u64) -> bool {
        index <= self.stale_transaction_index
    }

    /// All seven structural conditions at once.
    pub open spec fn invariant_holds(self) -> bool {
        &&& self.signers@.len() <= MAX_SIGNERS
        &&& no_duplicate_keys(self.signers@)
        &&& all_permissions_known(self.signers@)
        &&& count_permission(self.signers@, Permission::Initiate) > 0
        &&& count_permission(self.signers@, Permission::Execute) > 0
        &&& count_permission(self.signers@, Permission::Vote) > 0
        &&& 0 < self.threshold
        &&& self.threshold <= count_permission(self.signers@, Permission::Vote)
        &&& self.stale_transaction_index <= self.transaction_index
        &&& self.time_lock <= MAX_TIME_LOCK
    }

    /// The exact outcome of the invariant check: the first violated rule's
    /// error, in checking order, or success.
    pub open spec fn spec_invariant(self) -> Result<(), SmartAccountError> {
        let s = self.signers@;
        if s.len() > MAX_SIGNERS {
            Err(SmartAccountError::TooManySigners)
        } else if !no_adjacent_duplicate_keys(s) {
            Err(SmartAccountError::DuplicateSigner)
        } else if !all_permissions_known(s) {
            Err(SmartAccountError::UnknownPermission)
        } else if count_permission(s, Permission::Initiate) <= 0 {
            Err(SmartAccountError::NoProposers)
        } else if count_permission(s, Permission::Execute) <= 0 {
            Err(SmartAccountError::NoExecutors)
        } else if count_permission(s, Permission::Vote) <= 0 {
            Err(SmartAccountError::NoVoters)
        } else if self.threshold == 0 {
            Err(SmartAccountError::InvalidThreshold)
        } else if self.threshold > count_permission(s, Permission::Vote) {
            Err(SmartAccountError::InvalidThreshold)
        } else if self.stale_transaction_index > self.transaction_index {
            Err(SmartAccountError::InvalidStaleTransactionIndex)
        } else if self.time_lock > MAX_TIME_LOCK {
            Err(SmartAccountError::TimeLockExceedsMaxAllowed)
        } else {
            Ok(())
        }
    }

    /// Bytes the settings record occupies with `signers_length` registry
    /// entries: the fixed header plus one entry's space per signer.
    pub fn size(signers_length: usize) -> (r: usize)
        requires
            signers_length <= MAX_SIGNERS,
        ensures
            r == 132 + signers_length * 33,
    {
        8  // account discriminator
         + 32  // seed
         + 32  // settings_authority
         + 2  // threshold
         + 4  // time_lock
         + 8  // transaction_index
         + 8  // stale_transaction_index
         + 1  // rent_collector option discriminator
         + 32  // rent_collector payload, reserved even when unset
         + 1  // bump
         + 4  // signers vector length
         + signers_length * SMART_ACCOUNT_SIGNER_SPACE
    }

    /// How many entries hold the Vote capability.
    pub fn num_voters(signers: &[SmartAccountSigner]) -> (n: usize)
        ensures
            n == count_permission(signers@, Permission::Vote),
    {
        Self::count_with(signers, Permission::Vote)
    }

    /// How many entries hold the Initiate capability.
    pub fn num_proposers(signers: &[SmartAccountSigner]) -> (n: usize)
        ensures
            n == count_permission(signers@, Permission::Initiate),
    {
        Self::count_with(signers, Permission::Initiate)
    }

    /// How many entries hold the Execute capability.
    pub fn num_executors(signers: &[SmartAccountSigner]) -> (n: usize)
        ensures
            n == count_permission(signers@, Permission::Execute),
    {
        Self::count_with(signers, Permission::Execute)
    }

    fn count_with(signers: &[SmartAccountSigner], p: Permission) -> (n: usize)
        ensures
            n == count_permission(signers@, p),
    {
        let ghost all = signers@;
        let mut n: usize = 0;
        let mut i: usize = 0;
        proof {
            lemma_count_permission_le_len(all, p);
        }
        while i < signers.len()
            invariant
                i <= all.len(),
                signers@ == all,
                n == count_permission(all.take(i as int), p),
                n <= i,
            decreases all.len() - i,
        {
            proof {
                lemma_count_permission_step(all, p, i as int);
            }
            if signers[i].permissions.has(p) {
                n = n + 1;
            }
            i = i + 1;
        }
        proof {
            assert(all.take(all.len() as int) =~= all);
        }
        n
    }

    /// Run every structural rule in order and fail fast with the first
    /// violated one's distinct error. Pure: reads the state and changes
    /// nothing, so it can be called repeatedly.
    #[verifier::loop_isolation(false)]
    pub fn invariant_check(&self) -> (r: Result<(), SmartAccountError>)
        ensures
            r == self.spec_invariant(),
    {
        let s = &self.signers;
        let n = s.len();
        if n > MAX_SIGNERS {
            return Err(SmartAccountError::TooManySigners);
        }
        let ghost all = s@;
        let mut i: usize = 0;
        while i + 1 < n
            invariant
                n == all.len(),
                n <= MAX_SIGNERS,
                s@ == all,
                i <= n,
                forall|j: int|
                    0 <= j && j + 1 < i + 1 && j + 1 < all.len() ==> (#[trigger] all[j]).key
                        != all[j + 1].key,
            decreases n - i,
        {
            if s[i].key == s[i + 1].key {
                proof {
                    assert((all[i as int]).key == all[i as int + 1].key);
                    assert(!no_adjacent_duplicate_keys(all));
                }
                return Err(SmartAccountError::DuplicateSigner);
            }
            i = i + 1;
        }
        assert(no_adjacent_duplicate_keys(all));
        i = 0;
        while i < n
            invariant
                n == all.len(),
                s@ == all,
                i <= n,
                forall|j: int| 0 <= j < i ==> all[j].permissions.mask < 8,
            decreases n - i,
        {
            if s[i].permissions.mask >= 8 {
                proof {
                    assert((all[i as int]).permissions.mask >= 8);
                    assert(!all_permissions_known(all));
                }
                return Err(SmartAccountError::UnknownPermission);
            }
            i = i + 1;
        }
        assert(all_permissions_known(all));
        let num_proposers = Self::num_proposers(s.as_slice());
        if num_proposers == 0 {
            return Err(SmartAccountError::NoProposers);
        }
        let num_executors = Self::num_executors(s.as_slice());
        if num_executors == 0 {
            return Err(SmartAccountError::NoExecutors);
        }
        let num_voters = Self::num_voters(s.as_slice());
        if num_voters == 0 {
            return Err(SmartAccountError::NoVoters);
        }
        if self.threshold == 0 {
            return Err(SmartAccountError::InvalidThreshold);
        }
        if (self.threshold as usize) > num_voters {
            return Err(SmartAccountError::InvalidThreshold);
        }
        if self.stale_transaction_index > self.transaction_index {
            return Err(SmartAccountError::InvalidStaleTransactionIndex);
        }
        if self.time_lock > MAX_TIME_LOCK {
            return Err(SmartAccountError::TimeLockExceedsMaxAllowed);
        }
        Ok(())
    }

    /// Make every transaction created up to now stale: raise the watermark
    /// to the current transaction index. Called by every governance change
    /// that affects voting semantics.
    pub fn invalidate_prior_transactions(&mut self)
        ensures
            final(self).stale_transaction_index == old(self).transaction_index,
            (*final(self) == (Settings {
                stale_transaction_index: final(self).stale_transaction_index,
                ..*old(self)
            })),
    {
        self.stale_transaction_index = self.transaction_index;
    }

    /// Index `index` is at or below the staleness watermark.
    pub fn is_stale(&self, index: u64) -> (r: bool)
        ensures
            r == self.spec_is_stale(index),
    {
        index <= self.stale_transaction_index
    }

    /// Binary-search the sorted registry for `signer_pubkey`; the index of a
    /// matching entry, or `None` when no entry has that identity.
    pub fn is_signer(&self, signer_pubkey: PublicIdentity) -> (r: Option<usize>)
        requires
            signers_sorted(self.signers@),
        ensures
            match r {
                Some(i) => i < self.signers@.len() && self.signers@[i as int].key == signer_pubkey,
                None => forall|j: int|
                    0 <= j < self.signers@.len() ==> self.signers@[j].key != signer_pubkey,
            },
    {
        let ghost all = self.signers@;
        let mut lo: usize = 0;
        let mut hi: usize = self.signers.len();
        while lo < hi
            invariant
                lo <= hi <= all.len(),
                self.signers@ == all,
                signers_sorted(all),
                forall|j: int| 0 <= j < lo ==> all[j].key != signer_pubkey,
                forall|j: int| hi <= j < all.len() ==> all[j].key != signer_pubkey,
            decreases hi - lo,
        {
            let mid = lo + (hi - lo) / 2;
            if self.signers[mid].key == signer_pubkey {
                return Some(mid);
            } else if self.signers[mid].key.le(&signer_pubkey) {
                proof {
                    assert forall|j: int| 0 <= j < mid + 1 implies all[j].key != signer_pubkey by {
                        if all[j].key == signer_pubkey && j < mid {
                            assert(id_le(all[j].key, all[mid as int].key));
                        }
                    }
                }
                lo = mid + 1;
            } else {
                proof {
                    assert forall|j: int| mid <= j < all.len() implies all[j].key
                        != signer_pubkey by {
                        if all[j].key == signer_pubkey && mid < j {
                            assert(id_le(all[mid as int].key, all[j].key));
                        }
                    }
                }
                hi = mid;
            }
        }
        None
    }

    /// The registered signer with identity `signer_pubkey` holds capability
    /// `permission`; false when no such signer exists.
    pub fn signer_has_permission(&self, signer_pubkey: PublicIdentity, permission: Permission) -> (r:
        bool)
        requires
            self.wf(),
        ensures
            r == exists|i: int|
                0 <= i < self.signers@.len() && (#[trigger] self.signers@[i]).key == signer_pubkey
                    && self.signers@[i].permissions.spec_has(permission),
    {
        match self.is_signer(signer_pubkey) {
            Some(index) => {
                let r = self.signers[index].permissions.has(permission);
                proof {
                    if !r {
                        assert forall|i: int|
                            0 <= i < self.signers@.len() && (#[trigger] self.signers@[i]).key
                                == signer_pubkey implies !self.signers@[i].permissions.spec_has(
                            permission,
                        ) by {
                            if i != index as int {
                                assert(self.signers@[i].key != self.signers@[index as int].key);
                            }
                        }
                    }
                }
                r
            },
            _ => false,
        }
    }

    /// How many reject votes make rejection inevitable: one more than the
    /// voters that could be spared while still reaching the threshold.
    pub fn cutoff(&self) -> (r: usize)
        requires
            0 < self.threshold,
            self.threshold <= count_permission(self.signers@, Permission::Vote),
        ensures
            r == count_permission(self.signers@, Permission::Vote) - self.threshold + 1,
    {
        let voters = Self::num_voters(self.signers.as_slice());
        voters - (self.threshold as usize) + 1
    }

    /// Insert `new_signer` at its sorted position. The registry stays
    /// sorted; every other field is untouched.
    #[verifier::loop_isolation(false)]
    pub fn add_signer(&mut self, new_signer: SmartAccountSigner)
        requires
            signers_sorted(old(self).signers@),
            old(self).signers@.len() < usize::MAX,
        ensures
            final(self).signers@ == old(self).signers@.insert(
                insert_pos(old(self).signers@, new_signer.key),
                new_signer,
            ),
            signers_sorted(final(self).signers@),
            (*final(self) == (Settings { signers: final(self).signers, ..*old(self) })),
    {
        let ghost all = self.signers@;
        let ghost k = new_signer.key;
        proof {
            lemma_insert_pos(all, k);
        }
        let mut i: usize = 0;
        while i < self.signers.len() && self.signers[i].key.le(&new_signer.key)
            invariant
                i <= all.len(),
                self.signers@ == all,
                *self == *old(self),
                forall|j: int| 0 <= j < i ==> id_le((#[trigger] all[j]).key, k),
            decreases all.len() - i,
        {
            proof {
                assert(id_le(all[i as int].key, k));
            }
            i = i + 1;
        }
        proof {
            let p = insert_pos(all, k);
            if (i as int) < p {
                assert(id_le(all[i as int].key, k));
                assert(false);
            }
            if p < (i as int) {
                assert(!id_le(all[p].key, k));
                assert(false);
            }
            assert(i as int == p);
        }
        self.signers.insert(i, new_signer);
        proof {
            let p = i as int;
            let t = self.signers@;
            assert forall|a: int, b: int| 0 <= a < b < t.len() implies id_le(t[a].key, t[b].key) by {
                if b < p {
                    assert(t[a] == all[a] && t[b] == all[b]);
                } else if a < p && b == p {
                    assert(t[a] == all[a]);
                    assert(id_le(all[a].key, k));
                } else if a < p && b > p {
                    assert(t[a] == all[a] && t[b] == all[b - 1]);
                    assert(id_le(all[a].key, k));
                    assert(p <= b - 1);
                    if p < b - 1 {
                        assert(!id_le(all[p].key, k));
                        assert(id_le(all[p].key, all[b - 1].key));
                    } else {
                        assert(!id_le(all[b - 1].key, k));
                    }
                } else if a == p {
                    assert(t[b] == all[b - 1]);
                    assert(p <= b - 1);
                    if p < b - 1 {
                        assert(!id_le(all[p].key, k));
                        assert(id_le(all[p].key, all[b - 1].key));
                    } else {
                        assert(!id_le(all[b - 1].key, k));
                    }
                } else {
                    assert(t[a] == all[a - 1] && t[b] == all[b - 1]);
                }
            }
        }
    }

    /// Remove the entry with identity `signer_pubkey`, keeping sort order;
    /// fail with `NotASigner`, changing nothing, when no entry has it.
    pub fn remove_signer(&mut self, signer_pubkey: PublicIdentity) -> (r: Result<
        (),
        SmartAccountError,
    >)
        requires
            old(self).wf(),
        ensures
            ({
                let s = old(self).signers@;
                if exists|i: int| 0 <= i < s.len() && (#[trigger] s[i]).key == signer_pubkey {
                    &&& r is Ok
                    &&& exists|i: int|
                        0 <= i < s.len() && (#[trigger] s[i]).key == signer_pubkey
                            && final(self).signers@ == s.remove(i)
                } else {
                    &&& r == Err::<(), SmartAccountError>(SmartAccountError::NotASigner)
                    &&& *final(self) == *old(self)
                }
            }),
            (*final(self) == (Settings { signers: final(self).signers, ..*old(self) })),
            final(self).wf(),
    {
        let old_signer_index = match self.is_signer(signer_pubkey) {
            Some(old_signer_index) => old_signer_index,
            None => {
                return Err(SmartAccountError::NotASigner);
            },
        };
        let ghost all = self.signers@;
        self.signers.remove(old_signer_index);
        proof {
            let p = old_signer_index as int;
            let t = self.signers@;
            assert(t == all.remove(p));
            assert(all[p].key == signer_pubkey);
            assert forall|a: int, b: int| 0 <= a < b < t.len() implies id_le(t[a].key, t[b].key)
                && t[a].key != t[b].key by {
                let a0 = if a < p {
                    a
                } else {
                    a + 1
                };
                let b0 = if b < p {
                    b
                } else {
                    b + 1
                };
                assert(t[a] == all[a0] && t[b] == all[b0]);
            }
        }
        Ok(())
    }

    /// Decide whether the settings record's backing storage must grow to fit
    /// `signers_length` registry entries, and what that takes. The caller
    /// supplies the storage owner and its expected program identity, the
    /// current size and balance, the rent-exempt balance required at the
    /// grown size, and the optional payer and system-program references the
    /// top-up would use. Nothing is decided destructively here: the caller
    /// performs the returned plan.
    pub fn realloc_if_needed(
        account_owner: PublicIdentity,
        program_id: PublicIdentity,
        current_size: usize,
        signers_length: usize,
        current_lamports: u64,
        rent_exempt_lamports: u64,
        rent_payer: Option<PublicIdentity>,
        system_program: Option<PublicIdentity>,
    ) -> (r: Result<ReallocOutcome, SmartAccountError>)
        requires
            signers_length <= MAX_SIGNERS,
        ensures
            r == spec_realloc_decision(
                account_owner,
                program_id,
                current_size,
                signers_length,
                current_lamports,
                rent_exempt_lamports,
                rent_payer,
                system_program,
            ),
    {
        if account_owner != program_id {
            return Err(SmartAccountError::IllegalAccountOwner);
        }
        let account_size_to_fit_signers = Self::size(signers_length);
        if current_size >= account_size_to_fit_signers {
            return Ok(ReallocOutcome { reallocated: false, new_size: current_size, top_up: 0 });
        }
        let new_size = account_size_to_fit_signers;
        let top_up_lamports: u64 = if rent_exempt_lamports > current_lamports {
            rent_exempt_lamports - current_lamports
        } else {
            0
        };
        if top_up_lamports > 0 {
            let sys = match system_program {
                Some(sys) => sys,
                None => {
                    return Err(SmartAccountError::MissingAccount);
                },
            };
            if !(sys == system_program_id()) {
                return Err(SmartAccountError::InvalidAccount);
            }
            if rent_payer.is_none() {
                return Err(SmartAccountError::MissingAccount);
            }
        }
        Ok(ReallocOutcome { reallocated: true, new_size, top_up: top_up_lamports })
    }
}

/// The host system program's address: the all-zero identity.
pub fn system_program_id() -> (r: PublicIdentity)
    ensures
        r == spec_system_program_id(),
{
    PublicIdentity { hi: 0, lo: 0 }
}

/// The host system program's address: the all-zero identity.
pub open spec fn spec_system_program_id() -> PublicIdentity {
    PublicIdentity { hi: 0, lo: 0 }
}

/// The exact grow-if-needed decision: integrity check first, then the size
/// comparison, then the top-up plan with its required references.
pub open spec fn spec_realloc_decision(
    account_owner: PublicIdentity,
    program_id: PublicIdentity,
    current_size: usize,
    signers_length: usize,
    current_lamports: u64,
    rent_exempt_lamports: u64,
    rent_payer: Option<PublicIdentity>,
    system_program: Option<PublicIdentity>,
) -> Result<ReallocOutcome, SmartAccountError> {
    if account_owner != program_id {
        Err(SmartAccountError::IllegalAccountOwner)
    } else if current_size >= 132 + signers_length * 33 {
        Ok(ReallocOutcome { reallocated: false, new_size: current_size, top_up: 0 })
    } else {
        let top_up = if rent_exempt_lamports > current_lamports {
            (rent_exempt_lamports - current_lamports) as u64
        } else {
            0u64
        };
        if top_up > 0 {
            if system_program is None {
                Err(SmartAccountError::MissingAccount)
            } else if system_program != Some(spec_system_program_id()) {
                Err(SmartAccountError::InvalidAccount)
            } else if rent_payer is None {
                Err(SmartAccountError::MissingAccount)
            } else {
                Ok(ReallocOutcome {
                    reallocated: true,
                    new_size: (132 + signers_length * 33) as usize,
                    top_up,
                })
            }
        } else {
            Ok(ReallocOutcome {
                reallocated: true,
                new_size: (132 + signers_length * 33) as usize,
                top_up: 0,
            })
        }
    }
}

/// The invariant check passes exactly when all seven structural conditions
/// hold at once. Stated over a sorted registry, where one adjacent-pair scan
/// decides uniqueness.
pub proof fn lemma_invariant_check_complete(s: Settings)
    requires
        signers_sorted(s.signers@),
    ensures
        s.spec_invariant() is Ok <==> s.invariant_holds(),
{
    if s.spec_invariant() is Ok {
        lemma_sorted_adjacent_unique(s.signers@);
    }
    if s.invariant_holds() {
        assert(no_adjacent_duplicate_keys(s.signers@));
    }
}

/// Staleness only grows. `invalidate_prior_transactions` raises the
/// watermark to the current transaction index, so afterwards every index
/// that was stale before is still stale, and every index at or below the
/// new watermark is stale.
pub proof fn lemma_staleness_monotonic(before: Settings, after: Settings)
    requires
        after.stale_transaction_index == before.transaction_index,
        before.stale_transaction_index <= before.transaction_index,
    ensures
        forall|i: u64| before.spec_is_stale(i) ==> after.spec_is_stale(i),
        forall|i: u64| i <= after.stale_transaction_index ==> after.spec_is_stale(i),
{
}

/// Adding a signer with a fresh identity and then removing that identity
/// restores the registry exactly: the insertion position is the only entry
/// carrying the identity, and removing it undoes the insertion.
pub proof fn lemma_add_then_remove_restores(s: Seq<SmartAccountSigner>, m: SmartAccountSigner)
    requires
        signers_sorted(s),
        no_duplicate_keys(s),
        forall|i: int| 0 <= i < s.len() ==> (#[trigger] s[i]).key != m.key,
    ensures
        ({
            let t = s.insert(insert_pos(s, m.key), m);
            forall|i: int|
                0 <= i < t.len() && (#[trigger] t[i]).key == m.key ==> i == insert_pos(s, m.key)
                    && t.remove(i) == s
        }),
{
    lemma_insert_pos(s, m.key);
    let p = insert_pos(s, m.key);
    let t = s.insert(p, m);
    assert forall|i: int| 0 <= i < t.len() && (#[trigger] t[i]).key == m.key implies i == p
        && t.remove(i) == s by {
        if i < p {
            assert(t[i] == s[i]);
        }
        if i > p {
            assert(t[i] == s[i - 1]);
        }
        assert(i == p);
        assert(t.remove(p) =~= s);
    }
}

} // verus!
