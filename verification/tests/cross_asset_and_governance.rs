use soroban_sdk::Env;
use stellar_lend::account::AccountId;
use stellar_lend::cross_asset::{add_to_user_debt_list, set_max_debt_assets_per_user, CrossAssetError};
use stellar_lend::governance::{
    bind_payload, check_payload_hash, compute_payload_hash, verify_payload, PayloadBindingError,
    ProposalPayload,
};

fn account(tag: u8) -> AccountId {
    AccountId::new(vec![tag; 32])
}

fn payload(target: &[u8], params: &[u8], proposal_id: u64) -> ProposalPayload {
    ProposalPayload { target: target.to_vec(), params: params.to_vec(), proposal_id }
}

#[test]
fn debt_list_records_each_asset_once() {
    let mut list: Vec<Option<AccountId>> = vec![];
    assert_eq!(add_to_user_debt_list(&mut list, None, &Some(account(1))), Ok(1));
    assert_eq!(add_to_user_debt_list(&mut list, None, &None), Ok(2));
    assert_eq!(add_to_user_debt_list(&mut list, None, &Some(account(1))), Ok(2));
    assert_eq!(add_to_user_debt_list(&mut list, None, &None), Ok(2));
    assert_eq!(list.len(), 2);
}

#[test]
fn debt_list_cap_blocks_only_new_assets() {
    let mut list: Vec<Option<AccountId>> = vec![];
    assert_eq!(add_to_user_debt_list(&mut list, Some(2), &Some(account(1))), Ok(1));
    assert_eq!(add_to_user_debt_list(&mut list, Some(2), &Some(account(2))), Ok(2));
    assert_eq!(
        add_to_user_debt_list(&mut list, Some(2), &Some(account(3))),
        Err(CrossAssetError::DebtAssetLimitExceeded)
    );
    assert_eq!(list.len(), 2);
    assert_eq!(add_to_user_debt_list(&mut list, Some(2), &Some(account(2))), Ok(2));
}

#[test]
fn set_max_debt_assets_is_admin_only_and_positive() {
    let admin = Some(account(1));
    let mut cap: Option<u32> = None;
    assert_eq!(
        set_max_debt_assets_per_user(&admin, &account(2), &mut cap, Some(3)),
        Err(CrossAssetError::Unauthorized)
    );
    assert_eq!(
        set_max_debt_assets_per_user(&None, &account(1), &mut cap, Some(3)),
        Err(CrossAssetError::Unauthorized)
    );
    assert_eq!(
        set_max_debt_assets_per_user(&admin, &account(1), &mut cap, Some(0)),
        Err(CrossAssetError::InvalidMaxDebtAssets)
    );
    assert_eq!(cap, None);
    assert_eq!(set_max_debt_assets_per_user(&admin, &account(1), &mut cap, Some(3)), Ok(()));
    assert_eq!(cap, Some(3));
    assert_eq!(set_max_debt_assets_per_user(&admin, &account(1), &mut cap, None), Ok(()));
    assert_eq!(cap, None);
}

#[test]
fn cross_asset_error_codes() {
    assert_eq!(CrossAssetError::Unauthorized.code(), 1);
    assert_eq!(CrossAssetError::InvalidMaxDebtAssets.code(), 2);
    assert_eq!(CrossAssetError::DebtAssetLimitExceeded.code(), 3);
    assert_eq!(CrossAssetError::Overflow.code(), 4);
}

#[test]
fn matching_payload_verifies() {
    let env = Env::default();
    let p = payload(b"set_rate", &[0, 0, 0, 5], 1);
    let bound = bind_payload(&env, &p);
    assert_eq!(verify_payload(&env, &bound, &p), Ok(()));
}

#[test]
fn mutated_param_is_rejected() {
    let env = Env::default();
    let bound = bind_payload(&env, &payload(b"set_rate", &[0, 0, 0, 5], 1));
    assert_eq!(
        verify_payload(&env, &bound, &payload(b"set_rate", &[0, 0, 0, 6], 1)),
        Err(PayloadBindingError::PayloadMismatch)
    );
}

#[test]
fn substituted_target_is_rejected() {
    let env = Env::default();
    let bound = bind_payload(&env, &payload(b"set_rate", &[0, 0, 0, 5], 1));
    assert_eq!(
        verify_payload(&env, &bound, &payload(b"drain_treasury", &[0, 0, 0, 5], 1)),
        Err(PayloadBindingError::PayloadMismatch)
    );
}

#[test]
fn replay_under_other_proposal_is_rejected() {
    let env = Env::default();
    let bound = bind_payload(&env, &payload(b"set_rate", &[0, 0, 0, 5], 1));
    assert_eq!(
        verify_payload(&env, &bound, &payload(b"set_rate", &[0, 0, 0, 5], 2)),
        Err(PayloadBindingError::PayloadMismatch)
    );
}

#[test]
fn payload_hash_is_deterministic() {
    let env = Env::default();
    let p = payload(b"set_rate", &[0, 0, 0, 5], 1);
    assert_eq!(compute_payload_hash(&env, &p), compute_payload_hash(&env, &p));
    assert_eq!(bind_payload(&env, &p), compute_payload_hash(&env, &p));
}

#[test]
fn length_prefix_prevents_aliasing() {
    let env = Env::default();
    let a = compute_payload_hash(&env, &payload(b"ab", b"", 1));
    let b = compute_payload_hash(&env, &payload(b"a", b"b", 1));
    assert_ne!(a, b);
}

#[test]
fn payload_hash_is_keccak_of_the_canonical_encoding() {
    let env = Env::default();
    let p = payload(b"set_rate", &[0, 0, 0, 5], 1);
    let mut preimage: Vec<u8> = vec![0, 0, 0, 8];
    preimage.extend_from_slice(b"set_rate");
    preimage.extend_from_slice(&[0, 0, 0, 4, 0, 0, 0, 5]);
    preimage.extend_from_slice(&[0, 0, 0, 0, 0, 0, 0, 1]);
    let expected = env.crypto().keccak256(&soroban_sdk::Bytes::from_slice(&env, &preimage)).to_array();
    assert_eq!(compute_payload_hash(&env, &p), expected);
}

#[test]
fn hash_comparison() {
    let a = [3u8; 32];
    let mut b = [3u8; 32];
    assert_eq!(check_payload_hash(&a, &b), Ok(()));
    b[31] = 4;
    assert_eq!(check_payload_hash(&a, &b), Err(PayloadBindingError::PayloadMismatch));
    assert_eq!(PayloadBindingError::PayloadMismatch.code(), 1);
}
