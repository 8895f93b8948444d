use stellar_lend::account::AccountId;
use stellar_lend::vesting::{Grant, VestingContract, VestingError};

fn account(tag: u8) -> AccountId {
    AccountId::new(vec![tag; 32])
}

fn contract() -> VestingContract {
    VestingContract::initialize(account(1))
}

fn grant(total: i128, start: u64, cliff: u64, duration: u64) -> Grant {
    contract().create_grant(&account(1), account(2), total, start, cliff, duration).unwrap()
}

#[test]
fn create_grant_validates_caller_and_terms() {
    let c = contract();
    assert!(matches!(
        c.create_grant(&account(9), account(2), 100, 0, 0, 10),
        Err(VestingError::Unauthorized)
    ));
    assert!(matches!(c.create_grant(&account(1), account(2), 0, 0, 0, 10), Err(VestingError::InvalidGrant)));
    assert!(matches!(c.create_grant(&account(1), account(2), 100, 0, 0, 0), Err(VestingError::InvalidGrant)));
    let g = c.create_grant(&account(1), account(2), 100, 5, 1, 10).unwrap();
    assert_eq!(g.total_amount, 100);
    assert_eq!(g.claimed_amount, 0);
    assert!(!g.revoked);
}

#[test]
fn vesting_schedule_exact_values() {
    let g = grant(1_000, 100, 50, 400);
    assert_eq!(g.vested_at(0), 0);
    assert_eq!(g.vested_at(149), 0);
    assert_eq!(g.vested_at(150), 125);
    assert_eq!(g.vested_at(300), 500);
    assert_eq!(g.vested_at(500), 1_000);
    assert_eq!(g.vested_at(u64::MAX), 1_000);
    assert_eq!(g.claimable_at(300), 500);
}

#[test]
fn claim_takes_everything_claimable() {
    let c = contract();
    let g = grant(1_000, 0, 0, 100);
    let (g, amount) = c.claim(Some(g), 25).unwrap();
    assert_eq!(amount, 250);
    assert_eq!(g.claimed_amount, 250);
    assert!(matches!(c.claim(Some(g.clone_grant()), 25), Err(VestingError::NothingToClaim)));
    let (g, amount) = c.claim(Some(g), 100).unwrap();
    assert_eq!(amount, 750);
    assert_eq!(g.claimed_amount, 1_000);
}

#[test]
fn claim_refusals() {
    let c = contract();
    assert!(matches!(c.claim(None, 10), Err(VestingError::GrantNotFound)));
    let g = grant(1_000, 0, 0, 100);
    assert!(matches!(c.claim(Some(g.clone_grant()), 0), Err(VestingError::NothingToClaim)));
    let mut paused = contract();
    paused.pause(&account(1), 5).unwrap();
    assert!(matches!(paused.claim(Some(g), 50), Err(VestingError::ContractPaused)));
}

#[test]
fn revoke_splits_total() {
    let c = contract();
    let g = grant(1_000, 0, 0, 100);
    let (frozen, (vested, clawback)) = c.revoke(&account(1), Some(g), 40).unwrap();
    assert_eq!((vested, clawback), (400, 600));
    assert!(frozen.revoked);
    assert_eq!(frozen.claimed_amount, 400);
    assert_eq!(frozen.vested_at(1_000), 400);
    assert!(matches!(c.revoke(&account(1), Some(frozen.clone_grant()), 50), Err(VestingError::AlreadyRevoked)));
    assert!(matches!(c.claim(Some(frozen), 50), Err(VestingError::AlreadyRevoked)));
    assert!(matches!(c.revoke(&account(9), None, 50), Err(VestingError::Unauthorized)));
}

#[test]
fn paused_time_is_excluded_from_vesting() {
    let mut c = contract();
    let g = grant(1_000, 0, 0, 100);
    c.pause(&account(1), 10).unwrap();
    assert!(c.is_paused());
    assert!(matches!(c.resume(&account(9), 30), Err(VestingError::Unauthorized)));
    c.resume(&account(1), 30).unwrap();
    assert!(!c.is_paused());
    assert_eq!(c.total_paused_secs(), 20);
    assert_eq!(c.effective_now(50), 30);
    let (_, amount) = c.claim(Some(g), 50).unwrap();
    assert_eq!(amount, 300);
    assert!(matches!(c.resume(&account(1), 60), Err(VestingError::NotPaused)));
}

#[test]
fn pause_twice_keeps_first_timestamp() {
    let mut c = contract();
    c.pause(&account(1), 10).unwrap();
    c.pause(&account(1), 20).unwrap();
    assert_eq!(c.paused_at, 10);
}

#[test]
fn merge_grants_combines_remaining_amounts() {
    let c = contract();
    let a = grant(1_000, 0, 0, 100);
    let b = grant(500, 0, 0, 100);
    let (a, _) = c.claim(Some(a), 50).unwrap();
    let mut grants = Some(vec![a, b]);
    let merged = c.merge_grants(&account(1), &account(2), &mut grants, 50, 200).unwrap();
    assert_eq!(merged, 1_000);
    let list = grants.unwrap();
    assert_eq!(list.len(), 3);
    assert!(list[0].revoked && list[1].revoked);
    assert_eq!(list[2].total_amount, 1_000);
    assert_eq!(list[2].start_ts, 50);
    assert_eq!(list[2].duration_secs, 200);
    assert_eq!(list[2].cliff_secs, 0);
    assert!(!list[2].revoked);
}

#[test]
fn merge_grants_refusals() {
    let c = contract();
    let mut none: Option<Vec<Grant>> = None;
    assert!(matches!(c.merge_grants(&account(1), &account(2), &mut none, 0, 10), Err(VestingError::NoSuchGrant)));
    let mut some = Some(vec![grant(10, 0, 0, 10)]);
    assert!(matches!(c.merge_grants(&account(9), &account(2), &mut some, 0, 10), Err(VestingError::Unauthorized)));
    assert_eq!(some.as_ref().unwrap().len(), 1);
}

#[test]
fn vesting_error_codes() {
    assert_eq!(VestingError::Unauthorized.code(), 1);
    assert_eq!(VestingError::ContractPaused.code(), 2);
    assert_eq!(VestingError::GrantNotFound.code(), 3);
    assert_eq!(VestingError::NothingToClaim.code(), 4);
    assert_eq!(VestingError::AlreadyRevoked.code(), 5);
    assert_eq!(VestingError::Overflow.code(), 6);
    assert_eq!(VestingError::NotPaused.code(), 7);
    assert_eq!(VestingError::InvalidGrant.code(), 8);
    assert_eq!(VestingError::NoSuchGrant.code(), 9);
}

#[test]
fn merged_total_is_summed_beyond_i128() {
    let c = contract();
    let a = grant(i128::MAX, 0, 0, 100);
    let b = grant(i128::MAX, 0, 0, 100);
    let mut grants = Some(vec![a, b]);
    let merged = c.merge_grants(&account(1), &account(2), &mut grants, 0, 10).unwrap();
    assert_eq!(merged, 2 * (i128::MAX as u128));
    let list = grants.unwrap();
    assert_eq!(list[2].total_amount, i128::MAX);
}

#[test]
fn merged_remaining_counts_negative_claims_exactly() {
    let c = contract();
    let mut g = grant(100, 0, 0, 100);
    g.claimed_amount = -50;
    let mut grants = Some(vec![g]);
    assert_eq!(c.merge_grants(&account(1), &account(2), &mut grants, 0, 10), Ok(150));
}
