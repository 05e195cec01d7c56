use smart_account::errors::SmartAccountError;
use smart_account::identity::PublicIdentity;
use smart_account::permissions::{Permission, Permissions};
use smart_account::settings::{Settings, SmartAccountSigner, MAX_TIME_LOCK};

fn ident(hi: u128, lo: u128) -> PublicIdentity {
    PublicIdentity { hi, lo }
}

fn signer(hi: u128, mask: u8) -> SmartAccountSigner {
    SmartAccountSigner { key: ident(hi, 0), permissions: Permissions { mask } }
}

fn base_settings(signers: Vec<SmartAccountSigner>, threshold: u16) -> Settings {
    Settings {
        seed: ident(0, 1),
        settings_authority: ident(0, 0),
        threshold,
        time_lock: 0,
        transaction_index: 10,
        stale_transaction_index: 5,
        rent_collector: Some(ident(9, 9)),
        bump: 254,
        signers,
    }
}

#[test]
fn permissions_has_reads_bits() {
    let p = Permissions { mask: 3 };
    assert!(p.has(Permission::Initiate));
    assert!(p.has(Permission::Vote));
    assert!(!p.has(Permission::Execute));
}

#[test]
fn permissions_from_vec_or_reduces() {
    let p = Permissions::from_vec(&[Permission::Initiate, Permission::Execute]);
    assert_eq!(p.mask, 5);
    assert!(p.has(Permission::Initiate));
    assert!(!p.has(Permission::Vote));
    assert!(p.has(Permission::Execute));
    assert_eq!(Permissions::from_vec(&[]).mask, 0);
}

#[test]
fn invariant_check_passes_on_valid_settings() {
    let s = base_settings(vec![signer(1, 7), signer(2, 7)], 2);
    assert_eq!(s.invariant_check(), Ok(()));
}

#[test]
fn invariant_check_too_many_signers() {
    let mut signers = Vec::new();
    for i in 0..65536u32 {
        signers.push(signer(i as u128, 7));
    }
    let s = base_settings(signers, 1);
    assert_eq!(s.invariant_check(), Err(SmartAccountError::TooManySigners));
}

#[test]
fn invariant_check_duplicate_signer() {
    let s = base_settings(vec![signer(1, 7), signer(1, 7)], 1);
    assert_eq!(s.invariant_check(), Err(SmartAccountError::DuplicateSigner));
}

#[test]
fn invariant_check_unknown_permission() {
    let s = base_settings(vec![signer(1, 15)], 1);
    assert_eq!(s.invariant_check(), Err(SmartAccountError::UnknownPermission));
}

#[test]
fn invariant_check_no_proposers() {
    // Vote | Execute only
    let s = base_settings(vec![signer(1, 6)], 1);
    assert_eq!(s.invariant_check(), Err(SmartAccountError::NoProposers));
}

#[test]
fn invariant_check_no_executors() {
    // Initiate | Vote only
    let s = base_settings(vec![signer(1, 3)], 1);
    assert_eq!(s.invariant_check(), Err(SmartAccountError::NoExecutors));
}

#[test]
fn invariant_check_no_voters() {
    // Initiate | Execute only
    let s = base_settings(vec![signer(1, 5)], 1);
    assert_eq!(s.invariant_check(), Err(SmartAccountError::NoVoters));
}

#[test]
fn invariant_check_zero_threshold() {
    let s = base_settings(vec![signer(1, 7)], 0);
    assert_eq!(s.invariant_check(), Err(SmartAccountError::InvalidThreshold));
}

#[test]
fn invariant_check_threshold_exceeds_voters() {
    // five signers, only four with Vote, threshold five
    let signers = vec![
        signer(1, 7),
        signer(2, 7),
        signer(3, 7),
        signer(4, 7),
        signer(5, 5),
    ];
    let s = base_settings(signers, 5);
    assert_eq!(s.invariant_check(), Err(SmartAccountError::InvalidThreshold));
}

#[test]
fn invariant_check_stale_index_exceeds_current() {
    let mut s = base_settings(vec![signer(1, 7)], 1);
    s.transaction_index = 4;
    s.stale_transaction_index = 5;
    assert_eq!(
        s.invariant_check(),
        Err(SmartAccountError::InvalidStaleTransactionIndex)
    );
}

#[test]
fn invariant_check_time_lock_exceeds_max() {
    let mut s = base_settings(vec![signer(1, 7)], 1);
    s.time_lock = MAX_TIME_LOCK + 1;
    assert_eq!(
        s.invariant_check(),
        Err(SmartAccountError::TimeLockExceedsMaxAllowed)
    );
}

#[test]
fn size_formula_exact() {
    assert_eq!(Settings::size(0), 132);
    assert_eq!(Settings::size(3), 132 + 3 * 33);
}

#[test]
fn counting_helpers_filter_by_capability() {
    let signers = vec![signer(1, 1), signer(2, 3), signer(3, 6), signer(4, 7)];
    assert_eq!(Settings::num_proposers(&signers), 3);
    assert_eq!(Settings::num_voters(&signers), 3);
    assert_eq!(Settings::num_executors(&signers), 2);
}

#[test]
fn is_signer_finds_sorted_entries() {
    let s = base_settings(vec![signer(1, 7), signer(3, 7), signer(5, 7)], 1);
    assert_eq!(s.is_signer(ident(3, 0)), Some(1));
    assert_eq!(s.is_signer(ident(1, 0)), Some(0));
    assert_eq!(s.is_signer(ident(5, 0)), Some(2));
    assert_eq!(s.is_signer(ident(4, 0)), None);
}

#[test]
fn signer_has_permission_checks_registry() {
    let s = base_settings(vec![signer(1, 2), signer(2, 5)], 1);
    assert!(s.signer_has_permission(ident(1, 0), Permission::Vote));
    assert!(!s.signer_has_permission(ident(1, 0), Permission::Execute));
    assert!(s.signer_has_permission(ident(2, 0), Permission::Initiate));
    assert!(!s.signer_has_permission(ident(7, 0), Permission::Vote));
}

#[test]
fn cutoff_seven_voters_threshold_three() {
    let signers = (1..=7).map(|i| signer(i, 7)).collect();
    let s = base_settings(signers, 3);
    assert_eq!(s.cutoff(), 5);
}

#[test]
fn add_signer_keeps_registry_sorted() {
    let mut s = base_settings(vec![signer(1, 7), signer(5, 7)], 1);
    s.add_signer(signer(3, 2));
    let keys: Vec<u128> = s.signers.iter().map(|m| m.key.hi).collect();
    assert_eq!(keys, vec![1, 3, 5]);
}

#[test]
fn add_then_remove_restores_registry() {
    let mut s = base_settings(vec![signer(1, 7), signer(5, 7)], 1);
    let before = s.signers.clone();
    s.add_signer(signer(3, 2));
    assert_eq!(s.remove_signer(ident(3, 0)), Ok(()));
    assert_eq!(s.signers, before);
}

#[test]
fn remove_absent_signer_fails_and_changes_nothing() {
    let mut s = base_settings(vec![signer(1, 7), signer(5, 7)], 1);
    let before = s.signers.clone();
    assert_eq!(s.remove_signer(ident(3, 0)), Err(SmartAccountError::NotASigner));
    assert_eq!(s.signers, before);
}

#[test]
fn invalidate_prior_transactions_only_grows_staleness() {
    let mut s = base_settings(vec![signer(1, 7)], 1);
    s.transaction_index = 9;
    s.stale_transaction_index = 4;
    assert!(s.is_stale(4));
    assert!(!s.is_stale(9));
    s.invalidate_prior_transactions();
    assert_eq!(s.stale_transaction_index, 9);
    assert!(s.is_stale(4));
    assert!(s.is_stale(9));
    assert!(!s.is_stale(10));
}

use smart_account::settings::ReallocOutcome;

#[test]
fn realloc_not_needed_when_size_fits() {
    let r = Settings::realloc_if_needed(
        ident(8, 8),
        ident(8, 8),
        500,
        2,
        1_000,
        2_000,
        None,
        None,
    );
    assert_eq!(
        r,
        Ok(ReallocOutcome { reallocated: false, new_size: 500, top_up: 0 })
    );
}

#[test]
fn realloc_grows_and_tops_up() {
    let r = Settings::realloc_if_needed(
        ident(8, 8),
        ident(8, 8),
        132,
        4,
        1_000,
        2_500,
        Some(ident(3, 3)),
        Some(ident(0, 0)),
    );
    assert_eq!(
        r,
        Ok(ReallocOutcome { reallocated: true, new_size: 132 + 4 * 33, top_up: 1_500 })
    );
}

#[test]
fn realloc_grow_without_top_up_needs_no_payer() {
    let r = Settings::realloc_if_needed(ident(8, 8), ident(8, 8), 132, 4, 5_000, 2_500, None, None);
    assert_eq!(
        r,
        Ok(ReallocOutcome { reallocated: true, new_size: 132 + 4 * 33, top_up: 0 })
    );
}

#[test]
fn realloc_rejects_foreign_owner() {
    let r = Settings::realloc_if_needed(ident(8, 8), ident(7, 7), 500, 2, 0, 0, None, None);
    assert_eq!(r, Err(SmartAccountError::IllegalAccountOwner));
}

#[test]
fn realloc_missing_system_program() {
    let r = Settings::realloc_if_needed(
        ident(8, 8),
        ident(8, 8),
        132,
        4,
        1_000,
        2_500,
        Some(ident(3, 3)),
        None,
    );
    assert_eq!(r, Err(SmartAccountError::MissingAccount));
}

#[test]
fn realloc_wrong_system_program() {
    let r = Settings::realloc_if_needed(
        ident(8, 8),
        ident(8, 8),
        132,
        4,
        1_000,
        2_500,
        Some(ident(3, 3)),
        Some(ident(1, 1)),
    );
    assert_eq!(r, Err(SmartAccountError::InvalidAccount));
}

#[test]
fn realloc_missing_rent_payer() {
    let r = Settings::realloc_if_needed(
        ident(8, 8),
        ident(8, 8),
        132,
        4,
        1_000,
        2_500,
        None,
        Some(ident(0, 0)),
    );
    assert_eq!(r, Err(SmartAccountError::MissingAccount));
}
