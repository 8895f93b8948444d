//! Interest arithmetic with selectable rounding.
//!
//! Interest over `elapsed_seconds` at an annual rate of `rate_bps` basis
//! points is computed on a numerator scaled by `INTEREST_PRECISION`, divided
//! by `SECONDS_PER_YEAR * BASIS_POINTS_SCALE`, rounded by the chosen mode and
//! finally brought back to whole units.
use vstd::prelude::*;
use vstd::arithmetic::div_mod::{
    lemma_div_denominator, lemma_div_is_ordered, lemma_div_multiples_vanish_quotient,
    lemma_fundamental_div_mod,
};

verus! {

/// How the exact quotient is rounded to an integer.
#[derive(Clone, Copy, Debug, PartialEq, Eq, Structural)]
pub enum RoundingMode {
    Truncate,
    Floor,
    Bankers,
    Ceil,
}

/// Why an interest computation was refused.
#[derive(Clone, Copy, Debug, PartialEq, Eq, Structural)]
pub enum RoundingError {
    InvalidParameters,
    Overflow,
}

/// Fixed-point scale applied to the numerator before dividing.
pub const INTEREST_PRECISION: i128 = 1_000_000;

/// Seconds in a (non-leap) year.
pub const SECONDS_PER_YEAR: u64 = 365 * 24 * 60 * 60;

/// One hundred percent in basis points.
pub const BASIS_POINTS_SCALE: i128 = 10_000;

/// Result of an interest computation: whole units of interest and the
/// fractional part left over at `INTEREST_PRECISION` scale.
#[derive(Clone, Copy, Debug, PartialEq, Eq, Structural)]
pub struct InterestCalcResult {
    pub interest: i128,
    pub remainder: i128,
    pub total_drift: i128,
    pub mode: RoundingMode,
}

impl InterestCalcResult {
    /// A result whose drift equals its remainder.
    pub fn new(interest: i128, remainder: i128, mode: RoundingMode) -> (r: Self)
        ensures
            r.interest == interest,
            r.remainder == remainder,
            r.total_drift == remainder,
            r.mode == mode,
    {
        Self { interest, remainder, total_drift: remainder, mode }
    }
}

/// The divisor that turns `amount * seconds * rate_bps * INTEREST_PRECISION`
/// into interest at `INTEREST_PRECISION` scale.
pub open spec fn interest_denominator() -> int {
    SECONDS_PER_YEAR as int * BASIS_POINTS_SCALE as int
}

/// Quotient `q` with remainder `r` of a division by `d`, rounded by `mode`.
/// Bankers rounding sends an exact half to the even neighbour.
pub open spec fn round_quotient(q: int, r: int, d: int, mode: RoundingMode) -> int {
    let h = d / 2;
    match mode {
        RoundingMode::Truncate => q,
        RoundingMode::Floor => q,
        RoundingMode::Bankers => if r < h {
            q
        } else if r > h {
            q + 1
        } else if q % 2 == 0 {
            q
        } else {
            q + 1
        },
        RoundingMode::Ceil => if r == 0 {
            q
        } else {
            q + 1
        },
    }
}

/// `n / d` for a non-negative `n` and positive `d`, rounded by `mode`.
pub open spec fn rounded_div(n: int, d: int, mode: RoundingMode) -> int {
    round_quotient(n / d, n % d, d, mode)
}

/// The scaled numerator of an interest computation.
pub open spec fn interest_numerator(amount: int, seconds: int, rate_bps: int) -> int {
    amount * seconds * rate_bps * INTEREST_PRECISION as int
}

/// Whether one of the three successive products of the computation leaves
/// the `i128` range (all factors being non-negative).
pub open spec fn interest_overflows(amount: int, seconds: int, rate_bps: int) -> bool {
    ||| amount * seconds > i128::MAX
    ||| amount * seconds * rate_bps > i128::MAX
    ||| interest_numerator(amount, seconds, rate_bps) > i128::MAX
}

/// Interest at `INTEREST_PRECISION` scale, rounded by `mode`.
pub open spec fn scaled_interest(amount: int, seconds: int, rate_bps: int, mode: RoundingMode) -> int {
    rounded_div(interest_numerator(amount, seconds, rate_bps), interest_denominator(), mode)
}

/// Whole units of interest.
pub open spec fn interest_units(amount: int, seconds: int, rate_bps: int, mode: RoundingMode) -> int {
    scaled_interest(amount, seconds, rate_bps, mode) / INTEREST_PRECISION as int
}

/// Fraction of a unit left after `interest_units`, at `INTEREST_PRECISION` scale.
pub open spec fn interest_fraction(amount: int, seconds: int, rate_bps: int, mode: RoundingMode) -> int {
    scaled_interest(amount, seconds, rate_bps, mode) % INTEREST_PRECISION as int
}

/// Integer division rounded toward zero, as Rust's `/` does on signed values.
pub open spec fn div_toward_zero(a: int, b: int) -> int {
    if a >= 0 {
        a / b
    } else {
        -((-a) / b)
    }
}

pub open spec fn abs_int(a: int) -> int {
    if a >= 0 {
        a
    } else {
        -a
    }
}

pub open spec fn in_i128(x: int) -> bool {
    i128::MIN <= x <= i128::MAX
}

/// Interest on `borrowed_amount` over `elapsed_seconds` at `rate_bps`,
/// rounded by `mode`.
pub fn calculate_interest_with_rounding(
    borrowed_amount: i128,
    elapsed_seconds: u64,
    rate_bps: i128,
    mode: RoundingMode,
) -> (res: Result<InterestCalcResult, RoundingError>)
    ensures
        (borrowed_amount < 0 || rate_bps < 0) ==> res == Err::<InterestCalcResult, RoundingError>(
            RoundingError::InvalidParameters,
        ),
        (borrowed_amount == 0 && rate_bps >= 0) ==> res == Ok::<InterestCalcResult, RoundingError>(
            InterestCalcResult { interest: 0, remainder: 0, total_drift: 0, mode },
        ),
        (borrowed_amount > 0 && rate_bps >= 0) ==> {
            &&& (res is Err <==> interest_overflows(
                borrowed_amount as int,
                elapsed_seconds as int,
                rate_bps as int,
            ))
            &&& (res is Err ==> res == Err::<InterestCalcResult, RoundingError>(
                RoundingError::Overflow,
            ))
            &&& (res matches Ok(v) ==> {
                &&& v.interest == interest_units(
                    borrowed_amount as int,
                    elapsed_seconds as int,
                    rate_bps as int,
                    mode,
                )
                &&& v.remainder == interest_fraction(
                    borrowed_amount as int,
                    elapsed_seconds as int,
                    rate_bps as int,
                    mode,
                )
                &&& v.total_drift == v.remainder
                &&& v.mode == mode
            })
        },
{
    if borrowed_amount < 0 || rate_bps < 0 {
        return Err(RoundingError::InvalidParameters);
    }
    if borrowed_amount == 0 {
        return Ok(InterestCalcResult::new(0, 0, mode));
    }
    let seconds: i128 = elapsed_seconds as i128;
    proof {
        lemma_product_nonneg(borrowed_amount as int, seconds as int);
    }
    let amount_times_seconds = match borrowed_amount.checked_mul(seconds) {
        Some(v) => v,
        None => return Err(RoundingError::Overflow),
    };
    proof {
        lemma_product_nonneg(amount_times_seconds as int, rate_bps as int);
        if rate_bps >= 1 {
            lemma_growth_when_positive(
                amount_times_seconds as int,
                rate_bps as int,
                INTEREST_PRECISION as int,
            );
        }
    }
    let amount_times_seconds_times_rate = match amount_times_seconds.checked_mul(rate_bps) {
        Some(v) => v,
        None => return Err(RoundingError::Overflow),
    };
    proof {
        lemma_product_nonneg(amount_times_seconds_times_rate as int, INTEREST_PRECISION as int);
    }
    let with_precision = match amount_times_seconds_times_rate.checked_mul(INTEREST_PRECISION) {
        Some(v) => v,
        None => return Err(RoundingError::Overflow),
    };
    let denominator: i128 = 315_360_000_000;
    assert(denominator == interest_denominator());
    let full_division = with_precision / denominator;
    let remainder = with_precision % denominator;
    proof {
        assert(full_division <= with_precision / 2) by (nonlinear_arith)
            requires
                with_precision >= 0,
                full_division as int == with_precision as int / 315_360_000_000int,
        ;
    }
    let (rounded_interest, _) = apply_rounding(full_division, remainder, denominator, mode);
    let final_interest = rounded_interest / INTEREST_PRECISION;
    let final_remainder = rounded_interest % INTEREST_PRECISION;
    Ok(InterestCalcResult::new(final_interest, final_remainder, mode))
}

proof fn lemma_product_nonneg(a: int, b: int)
    requires
        a >= 0,
        b >= 0,
    ensures
        a * b >= 0,
{
    assert(a * b >= 0) by (nonlinear_arith)
        requires
            a >= 0,
            b >= 0,
    ;
}

/// With `x > 0`, multiplying by factors at least one never shrinks the value.
proof fn lemma_growth_when_positive(x: int, r: int, p: int)
    requires
        x >= 0,
        r >= 1,
        p >= 1,
    ensures
        x * r >= x,
        x * r * p >= x * r,
{
    assert(x * r >= x) by (nonlinear_arith)
        requires
            x >= 0,
            r >= 1,
    ;
    assert(x * r * p >= x * r) by (nonlinear_arith)
        requires
            x * r >= 0,
            p >= 1,
    ;
}

/// Rounds `quotient` (with `remainder` out of `divisor`) and returns the
/// rounded value with the signed remainder that goes with it.
fn apply_rounding(quotient: i128, remainder: i128, divisor: i128, mode: RoundingMode) -> (res: (
    i128,
    i128,
))
    requires
        divisor > 0,
        0 <= remainder < divisor,
        0 <= quotient < i128::MAX,
    ensures
        res.0 == round_quotient(quotient as int, remainder as int, divisor as int, mode),
        res.1 == (if res.0 == quotient {
            remainder as int
        } else {
            remainder - divisor
        }),
{
    let half_divisor = divisor / 2;
    match mode {
        RoundingMode::Truncate | RoundingMode::Floor => (quotient, remainder),
        RoundingMode::Bankers => {
            if remainder < half_divisor {
                (quotient, remainder)
            } else if remainder > half_divisor {
                (quotient + 1, remainder - divisor)
            } else if quotient % 2 == 0 {
                (quotient, remainder)
            } else {
                (quotient + 1, remainder - divisor)
            }
        },
        RoundingMode::Ceil => {
            if remainder == 0 {
                (quotient, 0)
            } else {
                (quotient + 1, remainder - divisor)
            }
        },
    }
}

/// The change from `stored` to `fresh` in basis points of `stored`, rounded
/// toward zero; zero when `stored` is not positive.
pub open spec fn drift_bps(stored: int, fresh: int) -> int {
    if stored > 0 {
        div_toward_zero((fresh - stored) * 10_000, stored)
    } else {
        0
    }
}

/// Whether the basis-point product of the drift leaves the `i128` range.
pub open spec fn drift_overflows(stored: int, fresh: int) -> bool {
    stored > 0 && !in_i128((fresh - stored) * 10_000)
}

/// Accepts `freshly_calculated_debt` when it differs from `stored_debt` by
/// at most `max_allowed_drift_bps`, and adds the difference to the drift
/// accumulated so far.
pub fn reconcile_debt_with_drift_correction(
    stored_debt: i128,
    freshly_calculated_debt: i128,
    accumulated_drift: i128,
    max_allowed_drift_bps: i128,
) -> (res: Result<(i128, i128), RoundingError>)
    requires
        in_i128(freshly_calculated_debt - stored_debt),
        (!drift_overflows(stored_debt as int, freshly_calculated_debt as int) && abs_int(
            drift_bps(stored_debt as int, freshly_calculated_debt as int),
        ) <= max_allowed_drift_bps) ==> in_i128(
            accumulated_drift + (freshly_calculated_debt - stored_debt),
        ),
    ensures
        drift_overflows(stored_debt as int, freshly_calculated_debt as int) ==> res == Err::<
            (i128, i128),
            RoundingError,
        >(RoundingError::Overflow),
        !drift_overflows(stored_debt as int, freshly_calculated_debt as int) ==> {
            if abs_int(drift_bps(stored_debt as int, freshly_calculated_debt as int))
                > max_allowed_drift_bps {
                res == Err::<(i128, i128), RoundingError>(RoundingError::InvalidParameters)
            } else {
                &&& res is Ok
                &&& res->Ok_0.0 == freshly_calculated_debt
                &&& res->Ok_0.1 == accumulated_drift + (freshly_calculated_debt - stored_debt)
            }
        },
{
    let debt_basis: i128 = if stored_debt > 0 {
        let diff = freshly_calculated_debt - stored_debt;
        let scaled = match diff.checked_mul(10_000) {
            Some(v) => v,
            None => return Err(RoundingError::Overflow),
        };
        proof {
            lemma_scaled_is_not_min(diff as int);
            lemma_div_toward_zero_range(scaled as int, stored_debt as int);
        }
        match scaled.checked_div(stored_debt) {
            Some(v) => v,
            None => 0,
        }
    } else {
        0
    };
    assert(debt_basis == drift_bps(stored_debt as int, freshly_calculated_debt as int));
    let exceeds = if debt_basis >= 0 {
        debt_basis > max_allowed_drift_bps
    } else {
        -debt_basis > max_allowed_drift_bps
    };
    if exceeds {
        return Err(RoundingError::InvalidParameters);
    }
    Ok(
        (
            freshly_calculated_debt,
            accumulated_drift + (freshly_calculated_debt - stored_debt),
        ),
    )
}

/// A multiple of ten thousand is never `i128::MIN`.
proof fn lemma_scaled_is_not_min(diff: int)
    ensures
        diff * 10_000 != i128::MIN,
{
    assert(diff * 10_000 != -170141183460469231731687303715884105728int);
}

/// Division toward zero by a positive divisor stays within the dividend's
/// magnitude, so it never produces `i128::MIN` from a dividend that is not.
proof fn lemma_div_toward_zero_range(a: int, b: int)
    requires
        in_i128(a),
        a != i128::MIN,
        b >= 1,
    ensures
        abs_int(div_toward_zero(a, b)) <= abs_int(a),
        div_toward_zero(a, b) > i128::MIN,
        in_i128(div_toward_zero(a, b)),
{
    if a >= 0 {
        assert(a / b <= a) by (nonlinear_arith)
            requires
                a >= 0,
                b >= 1,
        ;
        assert(a / b >= 0) by (nonlinear_arith)
            requires
                a >= 0,
                b >= 1,
        ;
    } else {
        let m = -a;
        assert(m / b <= m) by (nonlinear_arith)
            requires
                m >= 0,
                b >= 1,
        ;
        assert(m / b >= 0) by (nonlinear_arith)
            requires
                m >= 0,
                b >= 1,
        ;
    }
}

/// Rounding moves the exact quotient by at most one: the result lies between
/// the floor and the floor plus one, and `Floor`/`Truncate` give the floor.
pub proof fn law_rounding_within_one(n: int, d: int, mode: RoundingMode)
    requires
        n >= 0,
        d > 0,
    ensures
        n / d <= rounded_div(n, d, mode) <= n / d + 1,
        (mode == RoundingMode::Floor || mode == RoundingMode::Truncate) ==> rounded_div(n, d, mode)
            == n / d,
{
}

/// For a divisor of at least two, `Floor` never exceeds `Bankers`, which
/// never exceeds `Ceil`.
pub proof fn law_rounding_modes_ordered(n: int, d: int)
    requires
        n >= 0,
        d >= 2,
    ensures
        rounded_div(n, d, RoundingMode::Floor) <= rounded_div(n, d, RoundingMode::Bankers),
        rounded_div(n, d, RoundingMode::Bankers) <= rounded_div(n, d, RoundingMode::Ceil),
{
}

/// Rounding, in every mode, is monotone in the dividend.
pub proof fn law_rounding_monotone(n1: int, n2: int, d: int, mode: RoundingMode)
    requires
        0 <= n1 <= n2,
        d > 0,
    ensures
        rounded_div(n1, d, mode) <= rounded_div(n2, d, mode),
{
    lemma_div_is_ordered(n1, n2, d);
    lemma_fundamental_div_mod(n1, d);
    lemma_fundamental_div_mod(n2, d);
    if n1 / d == n2 / d {
        assert(n1 % d <= n2 % d);
    }
}

/// Multiplying non-negative factors is monotone in each factor.
proof fn lemma_product_monotone(a1: int, a2: int, s1: int, s2: int, r1: int, r2: int)
    requires
        0 <= a1 <= a2,
        0 <= s1 <= s2,
        0 <= r1 <= r2,
    ensures
        0 <= a1 * s1 <= a2 * s2,
        0 <= a1 * s1 * r1 <= a2 * s2 * r2,
        0 <= interest_numerator(a1, s1, r1) <= interest_numerator(a2, s2, r2),
{
    assert(0 <= a1 * s1 <= a2 * s2) by (nonlinear_arith)
        requires
            0 <= a1 <= a2,
            0 <= s1 <= s2,
    ;
    assert(0 <= a1 * s1 * r1 <= a2 * s2 * r2) by (nonlinear_arith)
        requires
            0 <= a1 * s1 <= a2 * s2,
            0 <= r1 <= r2,
    ;
    assert(0 <= (a1 * s1 * r1) * 1_000_000 <= (a2 * s2 * r2) * 1_000_000) by (nonlinear_arith)
        requires
            0 <= a1 * s1 * r1 <= a2 * s2 * r2,
    ;
}

/// Interest never decreases when the amount, the elapsed time or the rate
/// grows, in every rounding mode; and a computation that fits for the larger
/// inputs fits for the smaller ones.
pub proof fn law_interest_monotone(
    a1: int,
    a2: int,
    s1: int,
    s2: int,
    r1: int,
    r2: int,
    mode: RoundingMode,
)
    requires
        0 <= a1 <= a2,
        0 <= s1 <= s2,
        0 <= r1 <= r2,
    ensures
        interest_units(a1, s1, r1, mode) <= interest_units(a2, s2, r2, mode),
        0 <= interest_units(a1, s1, r1, mode),
        !interest_overflows(a2, s2, r2) ==> !interest_overflows(a1, s1, r1),
{
    lemma_product_monotone(a1, a2, s1, s2, r1, r2);
    let n1 = interest_numerator(a1, s1, r1);
    let n2 = interest_numerator(a2, s2, r2);
    law_rounding_monotone(n1, n2, interest_denominator(), mode);
    law_rounding_within_one(n1, interest_denominator(), mode);
    lemma_div_is_ordered(0, n1, interest_denominator());
    lemma_div_is_ordered(
        scaled_interest(a1, s1, r1, mode),
        scaled_interest(a2, s2, r2, mode),
        INTEREST_PRECISION as int,
    );
    lemma_div_is_ordered(0, scaled_interest(a1, s1, r1, mode), INTEREST_PRECISION as int);
}

/// The rounding modes order the interest: `Floor` <= `Bankers` <= `Ceil`.
pub proof fn law_interest_modes_ordered(amount: int, seconds: int, rate_bps: int)
    requires
        amount >= 0,
        seconds >= 0,
        rate_bps >= 0,
    ensures
        interest_units(amount, seconds, rate_bps, RoundingMode::Floor) <= interest_units(
            amount,
            seconds,
            rate_bps,
            RoundingMode::Bankers,
        ),
        interest_units(amount, seconds, rate_bps, RoundingMode::Bankers) <= interest_units(
            amount,
            seconds,
            rate_bps,
            RoundingMode::Ceil,
        ),
{
    lemma_product_monotone(amount, amount, seconds, seconds, rate_bps, rate_bps);
    let n = interest_numerator(amount, seconds, rate_bps);
    law_rounding_modes_ordered(n, interest_denominator());
    lemma_div_is_ordered(
        scaled_interest(amount, seconds, rate_bps, RoundingMode::Floor),
        scaled_interest(amount, seconds, rate_bps, RoundingMode::Bankers),
        INTEREST_PRECISION as int,
    );
    lemma_div_is_ordered(
        scaled_interest(amount, seconds, rate_bps, RoundingMode::Bankers),
        scaled_interest(amount, seconds, rate_bps, RoundingMode::Ceil),
        INTEREST_PRECISION as int,
    );
}

/// No time, no amount or no rate means no interest, in every mode.
pub proof fn law_no_interest_without_time_amount_or_rate(
    amount: int,
    seconds: int,
    rate_bps: int,
    mode: RoundingMode,
)
    requires
        amount == 0 || seconds == 0 || rate_bps == 0,
    ensures
        interest_units(amount, seconds, rate_bps, mode) == 0,
        interest_fraction(amount, seconds, rate_bps, mode) == 0,
{
    assert(amount * seconds * rate_bps == 0) by (nonlinear_arith)
        requires
            amount == 0 || seconds == 0 || rate_bps == 0,
    ;
}

/// In `Floor` mode the interest is simple interest rounded down:
/// `amount * seconds * rate_bps / (SECONDS_PER_YEAR * BASIS_POINTS_SCALE)`.
pub proof fn law_floor_interest_is_simple_interest(amount: int, seconds: int, rate_bps: int)
    requires
        amount >= 0,
        seconds >= 0,
        rate_bps >= 0,
    ensures
        interest_units(amount, seconds, rate_bps, RoundingMode::Floor) == (amount * seconds
            * rate_bps) / interest_denominator(),
{
    let x = amount * seconds * rate_bps;
    let p = INTEREST_PRECISION as int;
    let d = interest_denominator();
    lemma_product_monotone(amount, amount, seconds, seconds, rate_bps, rate_bps);
    lemma_div_denominator(x * p, d, p);
    lemma_div_multiples_vanish_quotient(p, x, d);
    assert(x * p == p * x) by (nonlinear_arith);
    assert(d * p == p * d) by (nonlinear_arith);
}

/// The drift check measures the change in basis points of the stored debt
/// (a 5 % change is 500): with a positive stored debt and a non-negative
/// tolerance, the reconciliation is refused exactly when
/// `|fresh - stored| * 10_000 >= (max + 1) * stored`, i.e. when the change
/// is at least `max + 1` basis points.
pub proof fn law_drift_is_measured_in_basis_points(stored: int, fresh: int, max_bps: int)
    requires
        stored > 0,
        max_bps >= 0,
    ensures
        abs_int(drift_bps(stored, fresh)) > max_bps <==> abs_int(fresh - stored) * 10_000 >= (
        max_bps + 1) * stored,
{
    let x = abs_int(fresh - stored) * 10_000;
    assert(abs_int(drift_bps(stored, fresh)) == x / stored) by {
        if fresh - stored >= 0 {
            assert((fresh - stored) * 10_000 >= 0) by (nonlinear_arith)
                requires
                    fresh - stored >= 0,
            ;
        } else {
            assert((fresh - stored) * 10_000 == -x);
        }
    }
    assert(x >= 0) by (nonlinear_arith)
        requires
            x == abs_int(fresh - stored) * 10_000,
            abs_int(fresh - stored) >= 0,
    ;
    assert(x / stored > max_bps <==> x >= (max_bps + 1) * stored) by (nonlinear_arith)
        requires
            x >= 0,
            stored > 0,
            max_bps >= 0,
    {
        lemma_fundamental_div_mod(x, stored);
    }
}

} // verus!
