use stellar_lend::account::AccountId;
use stellar_lend::amm::{AmmContract, AmmError, AmmPoolError, ReserveInfo};

const INIT_A: i128 = 1_000_000;
const INIT_B: i128 = 2_000_000;

fn account(tag: u8) -> AccountId {
    AccountId::new(vec![tag; 32])
}

fn setup() -> AmmContract {
    AmmContract::initialize(account(1), account(2), account(3))
}

fn setup_with_liquidity() -> AmmContract {
    let mut pool = setup();
    pool.add_liquidity(INIT_A, INIT_B).unwrap();
    pool
}

#[test]
fn test_error_codes_stability() {
    assert_eq!(AmmPoolError::EmptyPool.code(), 1);
    assert_eq!(AmmPoolError::NonPositiveAmount.code(), 2);
    assert_eq!(AmmPoolError::InsufficientReserves.code(), 3);
    assert_eq!(AmmPoolError::Overflow.code(), 4);
    assert_eq!(AmmPoolError::InvariantViolation.code(), 5);
    assert_eq!(AmmPoolError::ReentrantFlashSwap.code(), 6);
}

#[test]
fn amm_error_codes_are_stable() {
    assert_eq!(AmmError::NotInitialized.code(), 1);
    assert_eq!(AmmError::AlreadyInitialized.code(), 2);
    assert_eq!(AmmError::Unauthorized.code(), 3);
    assert_eq!(AmmError::InvalidAmount.code(), 4);
    assert_eq!(AmmError::InsufficientLiquidity.code(), 5);
    assert_eq!(AmmError::BelowMinLiquidity.code(), 6);
    assert_eq!(AmmError::SlippageExceeded.code(), 7);
    assert_eq!(AmmError::Overflow.code(), 8);
    assert_eq!(AmmError::InvalidToken.code(), 9);
}

#[test]
fn test_initialize_sets_admin_and_tokens() {
    let pool = setup();
    assert_eq!(pool.get_admin().key, account(1).key);
    let (a, b) = pool.get_tokens();
    assert_eq!(a.key, account(2).key);
    assert_eq!(b.key, account(3).key);
}

#[test]
fn test_initialize_reserves_start_at_zero() {
    let pool = setup();
    let reserves = pool.get_reserves();
    assert_eq!(reserves.reserve_a, 0);
    assert_eq!(reserves.reserve_b, 0);
}

#[test]
fn test_initialize_min_liquidity_defaults_to_zero() {
    let pool = setup();
    assert_eq!(pool.get_min_liquidity(), 0);
}

#[test]
fn test_set_min_liquidity_admin_only_succeeds() {
    let mut pool = setup();
    assert_eq!(pool.get_min_liquidity(), 0);
    pool.set_min_liquidity(1_000).unwrap();
    assert_eq!(pool.get_min_liquidity(), 1_000);
}

#[test]
fn test_set_min_liquidity_zero_is_accepted() {
    let mut pool = setup();
    pool.set_min_liquidity(0).unwrap();
    assert_eq!(pool.get_min_liquidity(), 0);
}

#[test]
fn test_set_min_liquidity_rejects_negative() {
    let mut pool = setup();
    let res = pool.set_min_liquidity(-100);
    assert!(matches!(res, Err(AmmError::InvalidAmount)));
    assert_eq!(pool.get_min_liquidity(), 0);
}

#[test]
fn test_floor_zero_remove_liquidity_full_withdrawal() {
    let mut pool = setup_with_liquidity();
    let (a, b) = pool.remove_liquidity(INIT_A, INIT_B).unwrap();
    assert_eq!(a, INIT_A);
    assert_eq!(b, INIT_B);
    let reserves = pool.get_reserves();
    assert_eq!(reserves.reserve_a, 0);
    assert_eq!(reserves.reserve_b, 0);
}

#[test]
fn test_floor_zero_swap_allowed_regardless_of_outgoing_reserve() {
    let mut pool = setup_with_liquidity();
    let result = pool.swap_exact_a_for_b(INIT_A * 10, 0);
    assert!(result.is_ok());
}

#[test]
fn test_remove_liquidity_exactly_to_floor_allowed() {
    let mut pool = setup_with_liquidity();
    pool.set_min_liquidity(100_000).unwrap();
    let remove_a = INIT_A - 100_000;
    let remove_b = INIT_B - 100_000;
    let (a, b) = pool.remove_liquidity(remove_a, remove_b).unwrap();
    assert_eq!(a, remove_a);
    assert_eq!(b, remove_b);
    let reserves = pool.get_reserves();
    assert_eq!(reserves.reserve_a, 100_000);
    assert_eq!(reserves.reserve_b, 100_000);
}

#[test]
fn test_remove_liquidity_below_floor_rejected() {
    let mut pool = setup_with_liquidity();
    pool.set_min_liquidity(100_000).unwrap();
    let res = pool.remove_liquidity(INIT_A - 50_000, INIT_B - 100_000);
    assert!(matches!(res, Err(AmmError::BelowMinLiquidity)));
}

#[test]
fn test_remove_liquidity_below_floor_b_only() {
    let mut pool = setup_with_liquidity();
    pool.set_min_liquidity(100_000).unwrap();
    let res = pool.remove_liquidity(1, INIT_B);
    assert!(matches!(res, Err(AmmError::BelowMinLiquidity)));
}

#[test]
fn test_remove_liquidity_below_floor_a_only() {
    let mut pool = setup_with_liquidity();
    pool.set_min_liquidity(100_000).unwrap();
    let res = pool.remove_liquidity(INIT_A, 1);
    assert!(matches!(res, Err(AmmError::BelowMinLiquidity)));
}

#[test]
fn test_swap_a_for_b_below_floor_rejected() {
    let mut pool = setup_with_liquidity();
    pool.set_min_liquidity(1_500_000).unwrap();
    let res = pool.swap_exact_a_for_b(500_000, 0);
    assert!(matches!(res, Err(AmmError::BelowMinLiquidity)));
}

#[test]
fn test_swap_b_for_a_below_floor_rejected() {
    let mut pool = setup_with_liquidity();
    pool.set_min_liquidity(800_000).unwrap();
    let res = pool.swap_exact_b_for_a(600_000, 0);
    assert!(matches!(res, Err(AmmError::BelowMinLiquidity)));
}

#[test]
fn test_swap_a_for_b_at_floor_allowed() {
    let mut pool = setup_with_liquidity();
    pool.set_min_liquidity(1_800_000).unwrap();
    let result = pool.swap_exact_a_for_b(100_000, 0).unwrap();
    assert!(result > 0);
    let reserves = pool.get_reserves();
    assert!(reserves.reserve_b >= 1_800_000);
}

#[test]
fn test_k_invariant_increases_on_swap() {
    let mut pool = setup_with_liquidity();
    let before = pool.get_reserves();
    let k_before = before.reserve_a * before.reserve_b;
    let out = pool.swap_exact_a_for_b(50_000, 0).unwrap();
    assert!(out > 0);
    let after = pool.get_reserves();
    let k_after = after.reserve_a * after.reserve_b;
    assert!(k_after >= k_before, "K-invariant must not decrease");
}

#[test]
fn test_k_invariant_increases_on_add_liquidity() {
    let mut pool = setup_with_liquidity();
    let before = pool.get_reserves();
    let k_before = before.reserve_a * before.reserve_b;
    let amount_b = pool.add_liquidity(500_000, 0).unwrap();
    assert!(amount_b > 0);
    let after = pool.get_reserves();
    let k_after = after.reserve_a * after.reserve_b;
    assert!(k_after > k_before, "K must increase on add_liquidity");
}

#[test]
fn test_remove_liquidity_rejects_zero_amount() {
    let mut pool = setup_with_liquidity();
    let res = pool.remove_liquidity(0, 100);
    assert!(matches!(res, Err(AmmError::InvalidAmount)));
    let res = pool.remove_liquidity(100, 0);
    assert!(matches!(res, Err(AmmError::InvalidAmount)));
}

#[test]
fn test_add_liquidity_rejects_zero_amount() {
    let mut pool = setup_with_liquidity();
    let res = pool.add_liquidity(0, 0);
    assert!(matches!(res, Err(AmmError::InvalidAmount)));
}

#[test]
fn test_swap_rejects_zero_input() {
    let mut pool = setup_with_liquidity();
    let res = pool.swap_exact_a_for_b(0, 0);
    assert!(matches!(res, Err(AmmError::InvalidAmount)));
    let res = pool.swap_exact_b_for_a(0, 0);
    assert!(matches!(res, Err(AmmError::InvalidAmount)));
}

#[test]
fn test_remove_liquidity_rejects_exceeding_reserves() {
    let mut pool = setup_with_liquidity();
    let res = pool.remove_liquidity(INIT_A + 1, INIT_B);
    assert!(matches!(res, Err(AmmError::InsufficientLiquidity)));
}

#[test]
fn test_swap_rejects_empty_pool() {
    let mut pool = setup();
    let res = pool.swap_exact_a_for_b(100, 0);
    assert!(matches!(res, Err(AmmError::InsufficientLiquidity)));
}

#[test]
fn test_add_liquidity_slippage_protection() {
    let mut pool = setup_with_liquidity();
    let result = pool.add_liquidity(100_000, 200_000).unwrap();
    assert_eq!(result, 200_000);
}

#[test]
fn test_add_liquidity_slippage_exceeded() {
    let mut pool = setup_with_liquidity();
    let res = pool.add_liquidity(100_000, 300_000);
    assert!(matches!(res, Err(AmmError::SlippageExceeded)));
}

#[test]
fn test_swap_slippage_exceeded() {
    let mut pool = setup_with_liquidity();
    let res = pool.swap_exact_a_for_b(100_000, 200_000);
    assert!(matches!(res, Err(AmmError::SlippageExceeded)));
}

#[test]
fn test_first_deposit_accepts_any_ratio() {
    let mut pool = setup();
    let out_b = pool.add_liquidity(500, 300).unwrap();
    assert_eq!(out_b, 300);
    let reserves = pool.get_reserves();
    assert_eq!(reserves.reserve_a, 500);
    assert_eq!(reserves.reserve_b, 300);
}

#[test]
fn test_first_deposit_with_zero_b_min() {
    let mut pool = setup();
    let out_b = pool.add_liquidity(1_000, 0).unwrap();
    assert_eq!(out_b, 0);
    let reserves = pool.get_reserves();
    assert_eq!(reserves.reserve_a, 1_000);
    assert_eq!(reserves.reserve_b, 0);
}

#[test]
fn test_swap_both_directions() {
    let mut pool = setup_with_liquidity();
    let out = pool.swap_exact_a_for_b(100_000, 0).unwrap();
    assert!(out > 0);
    let reserves = pool.get_reserves();
    assert!(reserves.reserve_a * reserves.reserve_b >= INIT_A * INIT_B);
    let out_back = pool.swap_exact_b_for_a(out, 0).unwrap();
    assert!(out_back > 0);
    let after = pool.get_reserves();
    assert!(after.reserve_a * after.reserve_b >= INIT_A * INIT_B);
}

#[test]
fn swap_output_exact_value() {
    let mut pool = setup_with_liquidity();
    let out = pool.swap_exact_a_for_b(100_000, 0).unwrap();
    assert_eq!(out, 181_818);
    assert_eq!(pool.get_reserves(), ReserveInfo { reserve_a: 1_100_000, reserve_b: 1_818_182 });
}

#[test]
fn round_trip_returns_at_most_input() {
    let mut pool = setup_with_liquidity();
    let out = pool.swap_exact_a_for_b(100_000, 0).unwrap();
    let back = pool.swap_exact_b_for_a(out, 0).unwrap();
    assert!(back <= 100_000);
}

#[test]
fn refused_operation_leaves_pool_unchanged() {
    let mut pool = setup_with_liquidity();
    pool.set_min_liquidity(1_500_000).unwrap();
    let before = pool.get_reserves();
    assert!(pool.swap_exact_a_for_b(500_000, 0).is_err());
    assert_eq!(pool.get_reserves(), before);
}
