//! Utilisation-driven interest rate with exponential smoothing.
//!
//! The target rate follows a kinked line in the pool's utilisation; the
//! applied rate moves from its previous value a tenth of the way toward the
//! target on every update. A new state is persisted, and an event emitted,
//! only when the applied rate actually changes (or on the first update).
use vstd::prelude::*;
use crate::rounding::{div_toward_zero, in_i128};

verus! {

/// Version of the `RateUpdatedEvent` payload.
pub const EVENT_SCHEMA_VERSION: u32 = 1;

/// Utilisation at the kink, in basis points (80 %).
pub const TARGET_UTILIZATION_BPS: i128 = 8000;

/// Weight of the target in each smoothing step, in basis points (0.1).
pub const SMOOTHING_FACTOR_BPS: i128 = 1000;

/// Rate at zero utilisation, in basis points.
pub const BASE_RATE_BPS: i128 = 50;

/// Rate added between zero utilisation and the kink.
pub const SLOPE1_BPS: i128 = 50;

/// Rate added between the kink and full utilisation.
pub const SLOPE2_BPS: i128 = 300;

/// Ceiling on every rate, in basis points.
pub const MAX_RATE_BPS: i128 = 5000;

/// One hundred percent in basis points.
pub const BPS_SCALE: i128 = 10_000;

/// The persisted smoothing state.
#[derive(Clone, Copy, Debug, PartialEq, Eq, Structural)]
pub struct RateSmoothingState {
    pub smoothed_rate_bps: i128,
    pub last_update: u64,
    pub utilization_bps: i128,
}

/// Published whenever the applied rate changes.
#[derive(Clone, Copy, Debug, PartialEq, Eq, Structural)]
pub struct RateUpdatedEvent {
    pub schema_version: u32,
    pub utilization_bps: i128,
    pub target_rate_bps: i128,
    pub applied_rate_bps: i128,
    pub ledger: u32,
}

/// The outcome of one rate update: the rate to use, and the state to
/// persist and the event to publish when the rate changed.
#[derive(Clone, Copy, Debug, PartialEq, Eq, Structural)]
pub struct RateUpdate {
    pub applied_rate_bps: i128,
    pub new_state: Option<RateSmoothingState>,
    pub event: Option<RateUpdatedEvent>,
}

/// `a * b`, or zero when the product leaves the `i128` range.
pub open spec fn mul_or_zero(a: int, b: int) -> int {
    if in_i128(a * b) {
        a * b
    } else {
        0
    }
}

/// `a + b` clamped to the `i128` range.
pub open spec fn saturating_sum(a: int, b: int) -> int {
    if a + b > i128::MAX {
        i128::MAX as int
    } else if a + b < i128::MIN {
        i128::MIN as int
    } else {
        a + b
    }
}

pub open spec fn min_int(a: int, b: int) -> int {
    if a <= b {
        a
    } else {
        b
    }
}

/// The kinked target rate at utilisation `u` (basis points), capped at
/// `MAX_RATE_BPS`.
pub open spec fn target_rate(u: int) -> int {
    if u <= TARGET_UTILIZATION_BPS {
        min_int(
            BASE_RATE_BPS + div_toward_zero(mul_or_zero(u, SLOPE1_BPS as int), TARGET_UTILIZATION_BPS as int),
            MAX_RATE_BPS as int,
        )
    } else {
        min_int(
            BASE_RATE_BPS + SLOPE1_BPS + div_toward_zero(
                mul_or_zero(u - TARGET_UTILIZATION_BPS, SLOPE2_BPS as int),
                BPS_SCALE - TARGET_UTILIZATION_BPS,
            ),
            MAX_RATE_BPS as int,
        )
    }
}

/// `a * b` on `i128`, or zero when it overflows.
fn mul_or_zero_exec(a: i128, b: i128) -> (r: i128)
    ensures
        r == mul_or_zero(a as int, b as int),
{
    match a.checked_mul(b) {
        Some(v) => v,
        None => 0,
    }
}

/// Division toward zero by a positive divisor.
fn div_toward_zero_exec(a: i128, b: i128) -> (r: i128)
    requires
        b > 0,
    ensures
        r == div_toward_zero(a as int, b as int),
{
    proof {
        lemma_div_toward_zero_bounds(a as int, b as int);
    }
    match a.checked_div(b) {
        Some(v) => v,
        None => 0,
    }
}

proof fn lemma_div_toward_zero_bounds(a: int, b: int)
    requires
        in_i128(a),
        b >= 1,
    ensures
        in_i128(div_toward_zero(a, b)),
        a >= 0 ==> 0 <= div_toward_zero(a, b) <= a,
        a < 0 ==> a <= div_toward_zero(a, b) <= 0,
{
    if a >= 0 {
        assert(0 <= a / b <= a) by (nonlinear_arith)
            requires
                a >= 0,
                b >= 1,
        ;
    } else {
        let m = -a;
        assert(0 <= m / b <= m) by (nonlinear_arith)
            requires
                m >= 0,
                b >= 1,
        ;
    }
}

fn min_exec(a: i128, b: i128) -> (r: i128)
    ensures
        r == min_int(a as int, b as int),
{
    if a <= b {
        a
    } else {
        b
    }
}

/// Target borrow rate (basis points) for a utilisation in basis points:
/// `BASE_RATE_BPS` plus `SLOPE1_BPS` spread up to the kink, then
/// `SLOPE2_BPS` spread between the kink and full utilisation, capped at
/// `MAX_RATE_BPS`. A product that would overflow contributes nothing.
pub fn compute_target_rate(utilization_bps: i128) -> (r: i128)
    ensures
        r == target_rate(utilization_bps as int),
{
    if utilization_bps <= TARGET_UTILIZATION_BPS {
        let scaled = div_toward_zero_exec(
            mul_or_zero_exec(utilization_bps, SLOPE1_BPS),
            TARGET_UTILIZATION_BPS,
        );
        proof {
            lemma_div_toward_zero_bounds(
                mul_or_zero(utilization_bps as int, SLOPE1_BPS as int),
                TARGET_UTILIZATION_BPS as int,
            );
            assert(scaled <= 50) by (nonlinear_arith)
                requires
                    scaled == div_toward_zero(
                        mul_or_zero(utilization_bps as int, 50),
                        8000,
                    ),
                    utilization_bps <= 8000,
            ;
        }
        min_exec(BASE_RATE_BPS + scaled, MAX_RATE_BPS)
    } else {
        let excess = utilization_bps - TARGET_UTILIZATION_BPS;
        let max_excess: i128 = BPS_SCALE - TARGET_UTILIZATION_BPS;
        let scaled = div_toward_zero_exec(mul_or_zero_exec(excess, SLOPE2_BPS), max_excess);
        proof {
            lemma_div_toward_zero_bounds(mul_or_zero(excess as int, SLOPE2_BPS as int), 2000);
        }
        min_exec(BASE_RATE_BPS + SLOPE1_BPS + scaled, MAX_RATE_BPS)
    }
}

/// Utilisation in basis points, `total_debt * 10_000 / total_deposits`
/// rounded toward zero; zero with no deposits or when the product overflows.
pub open spec fn utilization(total_debt: int, total_deposits: int) -> int {
    if total_deposits > 0 {
        div_toward_zero(mul_or_zero(total_debt, BPS_SCALE as int), total_deposits)
    } else {
        0
    }
}

/// The pool's utilisation in basis points from its aggregate debt and
/// deposits.
pub fn current_utilization(total_debt: i128, total_deposits: i128) -> (r: i128)
    ensures
        r == utilization(total_debt as int, total_deposits as int),
{
    if total_deposits > 0 {
        div_toward_zero_exec(mul_or_zero_exec(total_debt, BPS_SCALE), total_deposits)
    } else {
        0
    }
}

/// One smoothing step from `prev` toward `target`: nine tenths of the old
/// rate plus one tenth of the target, rounded toward zero and capped.
pub open spec fn smoothed_rate(prev: int, target: int) -> int {
    min_int(
        div_toward_zero(
            saturating_sum(
                mul_or_zero(target, SMOOTHING_FACTOR_BPS as int),
                mul_or_zero(prev, BPS_SCALE - SMOOTHING_FACTOR_BPS),
            ),
            BPS_SCALE as int,
        ),
        MAX_RATE_BPS as int,
    )
}

/// The rate applied after an update: the target on the first update,
/// otherwise one smoothing step from the persisted rate.
pub open spec fn applied_rate(prev: Option<RateSmoothingState>, target: int) -> int {
    match prev {
        Some(s) => smoothed_rate(s.smoothed_rate_bps as int, target),
        None => target,
    }
}

/// Whether an update persists a new state and publishes an event.
pub open spec fn rate_changes(prev: Option<RateSmoothingState>, applied: int) -> bool {
    match prev {
        Some(s) => s.smoothed_rate_bps != applied,
        None => true,
    }
}

/// Computes the next smoothed rate for the given utilisation. When the
/// rate changes (or no state exists yet) the result carries the state to
/// persist and the versioned event to publish; otherwise neither.
pub fn next_rate_update(
    prev: Option<RateSmoothingState>,
    utilization_bps: i128,
    now: u64,
    ledger: u32,
) -> (r: RateUpdate)
    ensures
        r.applied_rate_bps == applied_rate(prev, target_rate(utilization_bps as int)),
        rate_changes(prev, r.applied_rate_bps as int) ==> {
            &&& r.new_state == Some(
                RateSmoothingState {
                    smoothed_rate_bps: r.applied_rate_bps,
                    last_update: now,
                    utilization_bps,
                },
            )
            &&& r.event == Some(
                RateUpdatedEvent {
                    schema_version: EVENT_SCHEMA_VERSION,
                    utilization_bps,
                    target_rate_bps: target_rate(utilization_bps as int) as i128,
                    applied_rate_bps: r.applied_rate_bps,
                    ledger,
                },
            )
        },
        !rate_changes(prev, r.applied_rate_bps as int) ==> r.new_state is None && r.event is None,
{
    let target_rate_bps = compute_target_rate(utilization_bps);
    let applied_rate_bps = match prev {
        Some(state) => {
            let weighted_target = mul_or_zero_exec(target_rate_bps, SMOOTHING_FACTOR_BPS);
            let weighted_old = mul_or_zero_exec(
                state.smoothed_rate_bps,
                BPS_SCALE - SMOOTHING_FACTOR_BPS,
            );
            let sum = saturating_add_exec(weighted_target, weighted_old);
            min_exec(div_toward_zero_exec(sum, BPS_SCALE), MAX_RATE_BPS)
        },
        None => target_rate_bps,
    };
    let rate_changed = match prev {
        Some(state) => state.smoothed_rate_bps != applied_rate_bps,
        None => true,
    };
    if rate_changed {
        RateUpdate {
            applied_rate_bps,
            new_state: Some(
                RateSmoothingState {
                    smoothed_rate_bps: applied_rate_bps,
                    last_update: now,
                    utilization_bps,
                },
            ),
            event: Some(
                RateUpdatedEvent {
                    schema_version: EVENT_SCHEMA_VERSION,
                    utilization_bps,
                    target_rate_bps,
                    applied_rate_bps,
                    ledger,
                },
            ),
        }
    } else {
        RateUpdate { applied_rate_bps, new_state: None, event: None }
    }
}

/// Updates the smoothed rate for a pool holding `total_debt` against
/// `total_deposits`, at time `now` and ledger `ledger`. Returns the applied
/// rate and, when the rate changed (or on the first update), the event to
/// publish; `state` then holds the new smoothing state, else it is kept.
pub fn update_and_get_rate(
    state: &mut Option<RateSmoothingState>,
    total_debt: i128,
    total_deposits: i128,
    now: u64,
    ledger: u32,
) -> (r: (i128, Option<RateUpdatedEvent>))
    ensures
        ({
            let u = utilization(total_debt as int, total_deposits as int);
            let t = target_rate(u);
            &&& r.0 == applied_rate(*old(state), t)
            &&& rate_changes(*old(state), r.0 as int) ==> {
                &&& *final(state) == Some(
                    RateSmoothingState {
                        smoothed_rate_bps: r.0,
                        last_update: now,
                        utilization_bps: u as i128,
                    },
                )
                &&& r.1 == Some(
                    RateUpdatedEvent {
                        schema_version: EVENT_SCHEMA_VERSION,
                        utilization_bps: u as i128,
                        target_rate_bps: t as i128,
                        applied_rate_bps: r.0,
                        ledger,
                    },
                )
            }
            &&& !rate_changes(*old(state), r.0 as int) ==> *final(state) == *old(state) && r.1 is None
        }),
{
    let utilization_bps = current_utilization(total_debt, total_deposits);
    let update = next_rate_update(*state, utilization_bps, now, ledger);
    if let Some(s) = update.new_state {
        *state = Some(s);
    }
    (update.applied_rate_bps, update.event)
}

fn saturating_add_exec(a: i128, b: i128) -> (r: i128)
    ensures
        r == saturating_sum(a as int, b as int),
{
    match a.checked_add(b) {
        Some(v) => v,
        None => if a > 0 {
            i128::MAX
        } else {
            i128::MIN
        },
    }
}

/// The target rate lies between `BASE_RATE_BPS` and the rate at full
/// utilisation for every utilisation from 0 to 100 %, and the two anchor
/// points of the kinked line are exact.
pub proof fn law_target_rate_bounds(u: int)
    requires
        0 <= u <= BPS_SCALE,
    ensures
        BASE_RATE_BPS <= target_rate(u) <= BASE_RATE_BPS + SLOPE1_BPS + SLOPE2_BPS,
        target_rate(u) <= MAX_RATE_BPS,
        target_rate(0) == BASE_RATE_BPS,
        target_rate(TARGET_UTILIZATION_BPS as int) == BASE_RATE_BPS + SLOPE1_BPS,
        target_rate(BPS_SCALE as int) == BASE_RATE_BPS + SLOPE1_BPS + SLOPE2_BPS,
{
    if u <= 8000 {
        assert(0 <= (u * 50) / 8000 <= 50) by (nonlinear_arith)
            requires
                0 <= u <= 8000,
        ;
    } else {
        assert(0 <= ((u - 8000) * 300) / 2000 <= 300) by (nonlinear_arith)
            requires
                8000 < u <= 10000,
        ;
    }
}

/// The target rate never decreases as utilisation grows, as long as the
/// products involved fit in `i128`.
pub proof fn law_target_rate_monotone(u1: int, u2: int)
    requires
        0 <= u1 <= u2,
        u2 * SLOPE2_BPS <= i128::MAX,
    ensures
        target_rate(u1) <= target_rate(u2),
{
    if u2 <= 8000 {
        assert((u1 * 50) / 8000 <= (u2 * 50) / 8000) by (nonlinear_arith)
            requires
                0 <= u1 <= u2,
        ;
    } else if u1 <= 8000 {
        assert((u1 * 50) / 8000 <= 50) by (nonlinear_arith)
            requires
                0 <= u1 <= 8000,
        ;
        assert(0 <= ((u2 - 8000) * 300) / 2000) by (nonlinear_arith)
            requires
                8000 < u2,
        ;
    } else {
        assert(((u1 - 8000) * 300) / 2000 <= ((u2 - 8000) * 300) / 2000) by (nonlinear_arith)
            requires
                8000 < u1 <= u2,
        ;
    }
}

/// A smoothing step never overshoots: with the previous rate and the
/// target within `[0, MAX_RATE_BPS]`, the new rate lies between them.
pub proof fn law_smoothing_stays_between(prev: int, target: int)
    requires
        0 <= prev <= MAX_RATE_BPS,
        0 <= target <= MAX_RATE_BPS,
    ensures
        min_int(prev, target) <= smoothed_rate(prev, target),
        smoothed_rate(prev, target) <= (if prev >= target {
            prev
        } else {
            target
        }),
{
    let s = target * 1000 + prev * 9000;
    let lo = min_int(prev, target);
    let hi = if prev >= target {
        prev
    } else {
        target
    };
    assert(10000 * lo <= s <= 10000 * hi) by (nonlinear_arith)
        requires
            s == target * 1000 + prev * 9000,
            lo <= prev,
            lo <= target,
            prev <= hi,
            target <= hi,
    ;
    assert(lo <= s / 10000 <= hi) by (nonlinear_arith)
        requires
            10000 * lo <= s <= 10000 * hi,
    ;
}

/// Once the applied rate is a fixed point of the smoothing step for the
/// current utilisation, further updates persist nothing and publish nothing.
pub proof fn law_no_event_at_fixed_point(prev: RateSmoothingState, utilization_bps: int)
    requires
        smoothed_rate(prev.smoothed_rate_bps as int, target_rate(utilization_bps))
            == prev.smoothed_rate_bps,
    ensures
        !rate_changes(
            Some(prev),
            applied_rate(Some(prev), target_rate(utilization_bps)),
        ),
{
}

/// A smoothing step moves a tenth of the way from the previous rate to the
/// target, in either direction: with both in `[0, MAX_RATE_BPS]` the new rate
/// is `(target * 1000 + prev * 9000) / 10000`, rounded down. A falling target
/// is therefore approached gradually too: the rate drops by at most a tenth
/// of the gap (plus rounding), never straight to the target.
pub proof fn law_smoothing_step_is_exact(prev: int, target: int)
    requires
        0 <= prev <= MAX_RATE_BPS,
        0 <= target <= MAX_RATE_BPS,
    ensures
        smoothed_rate(prev, target) == (target * 1000 + prev * 9000) / 10000,
        target < prev ==> smoothed_rate(prev, target) >= prev - (prev - target) / 10 - 1,
        target > prev ==> smoothed_rate(prev, target) <= prev + (target - prev) / 10 + 1,
{
    let w = target * 1000 + prev * 9000;
    assert(0 <= target * 1000 <= 5_000_000) by (nonlinear_arith)
        requires
            0 <= target <= 5000,
    ;
    assert(0 <= prev * 9000 <= 45_000_000) by (nonlinear_arith)
        requires
            0 <= prev <= 5000,
    ;
    assert(w / 10000 <= MAX_RATE_BPS) by (nonlinear_arith)
        requires
            w == target * 1000 + prev * 9000,
            0 <= prev <= 5000,
            0 <= target <= 5000,
    ;
    assert(w / 10000 >= prev - (prev - target) / 10 - 1 || target >= prev) by (nonlinear_arith)
        requires
            w == target * 1000 + prev * 9000,
            0 <= target,
    ;
    assert(w / 10000 <= prev + (target - prev) / 10 + 1 || target <= prev) by (nonlinear_arith)
        requires
            w == target * 1000 + prev * 9000,
            0 <= prev,
    ;
}

/// On every update after the first, the applied rate is one smoothing step
/// from the persisted rate toward the target.
pub proof fn law_update_takes_one_step(prev: RateSmoothingState, utilization_bps: int)
    requires
        0 <= prev.smoothed_rate_bps <= MAX_RATE_BPS,
        0 <= target_rate(utilization_bps) <= MAX_RATE_BPS,
    ensures
        applied_rate(Some(prev), target_rate(utilization_bps)) == (target_rate(utilization_bps)
            * 1000 + prev.smoothed_rate_bps * 9000) / 10000,
{
    law_smoothing_step_is_exact(prev.smoothed_rate_bps as int, target_rate(utilization_bps));
}

} // verus!
