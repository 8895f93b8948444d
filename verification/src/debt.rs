//! Per-position debt accounting.
//!
//! A position records its principal and the time it was last settled.
//! Every touch first settles the interest accrued since `last_update`
//! (banker's rounding) and only then applies the borrow or the repayment,
//! so time spent in debt is always charged before any payment counts.
use vstd::prelude::*;
use crate::rounding::{
    calculate_interest_with_rounding, in_i128, interest_overflows, interest_units,
    law_interest_monotone, RoundingError,
    RoundingMode,
};

verus! {

/// The annual rate applied to positions, in basis points (5 %).
pub const DEFAULT_APR_BPS: i128 = 500;

/// One hundred percent in basis points.
pub const BPS_DENOM: i128 = 10_000;

/// A borrower's debt: principal including all settled interest, and the
/// timestamp of the last settlement.
#[derive(Clone, Copy, Debug, PartialEq, Eq, Structural)]
pub struct DebtPosition {
    pub principal: i128,
    pub last_update: u64,
}

/// The aggregate values from which the pool's borrow rate is derived.
#[derive(Clone, Copy, Debug, PartialEq, Eq, Structural)]
pub struct RateSnapshot {
    pub total_debt: i128,
    pub total_supply: i128,
}

/// A borrow rate computed for one ledger.
#[derive(Clone, Copy, Debug, PartialEq, Eq, Structural)]
pub struct BorrowRateCache {
    pub ledger_sequence: u32,
    pub rate_bps: i128,
}

/// Why a debt operation was refused.
#[derive(Clone, Copy, Debug, PartialEq, Eq, Structural)]
pub enum DebtError {
    Overflow,
    InvalidAmount,
}

/// Every rounding failure surfaces as an overflow of the debt computation.
impl From<RoundingError> for DebtError {
    fn from(e: RoundingError) -> (r: DebtError) {
        DebtError::Overflow
    }
}

impl vstd::std_specs::convert::FromSpecImpl<RoundingError> for DebtError {
    open spec fn obeys_from_spec() -> bool {
        true
    }

    open spec fn from_spec(v: RoundingError) -> DebtError {
        DebtError::Overflow
    }
}

/// Seconds elapsed since `last_update`; zero if `now` lies before it.
pub open spec fn elapsed_spec(now: u64, last_update: u64) -> int {
    if now >= last_update {
        now - last_update
    } else {
        0
    }
}

/// Seconds that have passed from `last_update` to `now`, zero when the clock
/// appears to run backwards.
pub fn elapsed_seconds(now: u64, last_update: u64) -> (r: u64)
    ensures
        r == elapsed_spec(now, last_update),
{
    now.saturating_sub(last_update)
}

/// Interest owed on `principal` after `elapsed` seconds at `rate_bps`, or
/// `None` when the computation is refused.
pub open spec fn accrued_interest(principal: int, elapsed: int, rate_bps: int) -> Option<int> {
    if principal == 0 || elapsed == 0 {
        Some(0)
    } else if principal < 0 || rate_bps < 0 || interest_overflows(principal, elapsed, rate_bps) {
        None
    } else {
        Some(interest_units(principal, elapsed, rate_bps, RoundingMode::Bankers))
    }
}

/// Interest accrued on `principal` over `elapsed` seconds at `rate_bps`,
/// rounded half-to-even.
pub fn accrue_interest(principal: i128, elapsed: u64, rate_bps: i128) -> (res: Result<
    i128,
    DebtError,
>)
    ensures
        match res {
            Ok(i) => accrued_interest(principal as int, elapsed as int, rate_bps as int) == Some(
                i as int,
            ),
            Err(e) => accrued_interest(principal as int, elapsed as int, rate_bps as int) is None
                && e == DebtError::Overflow,
        },
{
    if principal == 0 || elapsed == 0 {
        return Ok(0);
    }
    let result = match calculate_interest_with_rounding(
        principal,
        elapsed,
        rate_bps,
        RoundingMode::Bankers,
    ) {
        Ok(r) => r,
        Err(e) => return Err(DebtError::from(e)),
    };
    proof {
        law_interest_monotone(
            principal as int,
            principal as int,
            elapsed as int,
            elapsed as int,
            rate_bps as int,
            rate_bps as int,
            RoundingMode::Bankers,
        );
    }
    if result.interest < 0 {
        return Err(DebtError::Overflow);
    }
    Ok(result.interest)
}

/// The debt of `position` at `now`: principal plus the interest accrued
/// since `last_update`, or `None` when that cannot be computed in `i128`.
pub open spec fn debt_at(position: DebtPosition, now: u64, rate_bps: i128) -> Option<int> {
    match accrued_interest(
        position.principal as int,
        elapsed_spec(now, position.last_update),
        rate_bps as int,
    ) {
        Some(i) => if in_i128(position.principal + i) {
            Some(position.principal + i)
        } else {
            None
        },
        None => None,
    }
}

/// Folds the interest accrued up to `now` into the principal and moves
/// `last_update` to `now`.
pub fn settle_accrual(position: &DebtPosition, now: u64, rate_bps: i128) -> (res: Result<
    DebtPosition,
    DebtError,
>)
    ensures
        match res {
            Ok(p) => debt_at(*position, now, rate_bps) == Some(p.principal as int) && p.last_update
                == now,
            Err(e) => debt_at(*position, now, rate_bps) is None && e == DebtError::Overflow,
        },
{
    let elapsed = elapsed_seconds(now, position.last_update);
    let interest = accrue_interest(position.principal, elapsed, rate_bps)?;
    let principal = match position.principal.checked_add(interest) {
        Some(p) => p,
        None => return Err(DebtError::Overflow),
    };
    Ok(DebtPosition { principal, last_update: now })
}

/// The debt of `position` at `now`, without changing it.
pub fn effective_debt(position: &DebtPosition, now: u64, rate_bps: i128) -> (res: Result<
    i128,
    DebtError,
>)
    ensures
        match res {
            Ok(d) => debt_at(*position, now, rate_bps) == Some(d as int),
            Err(e) => debt_at(*position, now, rate_bps) is None && e == DebtError::Overflow,
        },
{
    let elapsed = elapsed_seconds(now, position.last_update);
    let interest = accrue_interest(position.principal, elapsed, rate_bps)?;
    match position.principal.checked_add(interest) {
        Some(d) => Ok(d),
        None => Err(DebtError::Overflow),
    }
}

/// Settles accrued interest and adds `amount` to the principal.
pub fn borrow_amount(position: DebtPosition, now: u64, amount: i128, rate_bps: i128) -> (res:
    Result<DebtPosition, DebtError>)
    ensures
        amount <= 0 ==> res == Err::<DebtPosition, DebtError>(DebtError::InvalidAmount),
        amount > 0 ==> match debt_at(position, now, rate_bps) {
            Some(d) => if in_i128(d + amount) {
                res == Ok::<DebtPosition, DebtError>(
                    DebtPosition { principal: (d + amount) as i128, last_update: now },
                )
            } else {
                res == Err::<DebtPosition, DebtError>(DebtError::Overflow)
            },
            None => res == Err::<DebtPosition, DebtError>(DebtError::Overflow),
        },
{
    if amount <= 0 {
        return Err(DebtError::InvalidAmount);
    }
    let mut settled = settle_accrual(&position, now, rate_bps)?;
    settled.principal = match settled.principal.checked_add(amount) {
        Some(p) => p,
        None => return Err(DebtError::Overflow),
    };
    settled.last_update = now;
    Ok(settled)
}

/// What remains of debt `d` after paying `amount`: never below zero.
pub open spec fn remaining_after_payment(d: int, amount: int) -> int {
    if amount >= d {
        0
    } else {
        d - amount
    }
}

/// Settles accrued interest first, then applies the repayment; repaying
/// more than is owed clears the debt.
pub fn repay_amount(position: DebtPosition, now: u64, amount: i128, rate_bps: i128) -> (res:
    Result<DebtPosition, DebtError>)
    ensures
        amount <= 0 ==> res == Err::<DebtPosition, DebtError>(DebtError::InvalidAmount),
        amount > 0 ==> match debt_at(position, now, rate_bps) {
            Some(d) => res == Ok::<DebtPosition, DebtError>(
                DebtPosition {
                    principal: remaining_after_payment(d, amount as int) as i128,
                    last_update: now,
                },
            ),
            None => res == Err::<DebtPosition, DebtError>(DebtError::Overflow),
        },
{
    if amount <= 0 {
        return Err(DebtError::InvalidAmount);
    }
    let mut settled = settle_accrual(&position, now, rate_bps)?;
    settled.principal = if amount >= settled.principal {
        0
    } else {
        settled.principal - amount
    };
    settled.last_update = now;
    Ok(settled)
}

/// With no time elapsed (or the clock behind `last_update`) the debt is
/// exactly the recorded principal.
pub proof fn law_no_interest_without_elapsed_time(position: DebtPosition, now: u64, rate_bps: i128)
    requires
        now <= position.last_update,
    ensures
        debt_at(position, now, rate_bps) == Some(position.principal as int),
{
}

/// Accrual never reduces a non-negative debt, and it grows with time: a
/// debt read later is at least a debt read earlier, and a later read that
/// succeeds implies the earlier one succeeds.
pub proof fn law_debt_monotone_in_time(position: DebtPosition, t1: u64, t2: u64, rate_bps: i128)
    requires
        position.principal >= 0,
        rate_bps >= 0,
        t1 <= t2,
        debt_at(position, t2, rate_bps) is Some,
    ensures
        debt_at(position, t1, rate_bps) is Some,
        position.principal <= debt_at(position, t1, rate_bps)->Some_0 <= debt_at(
            position,
            t2,
            rate_bps,
        )->Some_0,
{
    let p = position.principal as int;
    let e1 = elapsed_spec(t1, position.last_update);
    let e2 = elapsed_spec(t2, position.last_update);
    law_interest_monotone(p, p, e1, e2, rate_bps as int, rate_bps as int, RoundingMode::Bankers);
    law_interest_monotone(p, p, 0, e1, rate_bps as int, rate_bps as int, RoundingMode::Bankers);
}

/// Interest is charged before a repayment counts: repaying `amount` at
/// `now` leaves exactly the debt accrued up to `now` minus `amount` (or
/// nothing), and the position is re-based at `now`.
pub proof fn law_repay_applies_after_accrual(
    position: DebtPosition,
    now: u64,
    amount: i128,
    rate_bps: i128,
)
    requires
        amount > 0,
        debt_at(position, now, rate_bps) is Some,
    ensures
        ({
            let d = debt_at(position, now, rate_bps)->Some_0;
            let after = remaining_after_payment(d, amount as int);
            &&& after == (if d - amount > 0 {
                d - amount
            } else {
                0
            })
            &&& after >= 0
            &&& (d >= 0 ==> after <= d)
        }),
{
}

/// A borrow followed by a repayment of the same amount at the same instant
/// leaves the debt that had accrued before the borrow (when it is not
/// negative).
pub proof fn law_borrow_then_repay_same_instant(
    position: DebtPosition,
    now: u64,
    amount: i128,
    rate_bps: i128,
)
    requires
        amount > 0,
        debt_at(position, now, rate_bps) is Some,
        debt_at(position, now, rate_bps)->Some_0 >= 0,
        in_i128(debt_at(position, now, rate_bps)->Some_0 + amount),
    ensures
        ({
            let d = debt_at(position, now, rate_bps)->Some_0;
            let borrowed = DebtPosition { principal: (d + amount) as i128, last_update: now };
            &&& debt_at(borrowed, now, rate_bps) == Some(d + amount)
            &&& remaining_after_payment(d + amount, amount as int) == d
        }),
{
    let d = debt_at(position, now, rate_bps)->Some_0;
    let borrowed = DebtPosition { principal: (d + amount) as i128, last_update: now };
    law_no_interest_without_elapsed_time(borrowed, now, rate_bps);
}

} // verus!
