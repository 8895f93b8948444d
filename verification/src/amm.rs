//! A constant-product pool with a minimum-liquidity floor.
//!
//! Swaps pay out `reserve_out * amount_in / (reserve_in + amount_in)`,
//! rounded down, so the product of the reserves never decreases. No removal
//! or swap may leave the reserve it draws from below the configured floor.
//! Every refused operation leaves the pool unchanged.
use vstd::prelude::*;
use crate::account::AccountId;

verus! {

/// Why a pool operation was refused.
#[derive(Clone, Copy, Debug, PartialEq, Eq, Structural)]
pub enum AmmError {
    NotInitialized,
    AlreadyInitialized,
    Unauthorized,
    InvalidAmount,
    InsufficientLiquidity,
    BelowMinLiquidity,
    SlippageExceeded,
    Overflow,
    InvalidToken,
}

impl AmmError {
    /// The stable numeric code of the error.
    pub fn code(&self) -> (r: u32)
        ensures
            r == match *self {
                AmmError::NotInitialized => 1u32,
                AmmError::AlreadyInitialized => 2u32,
                AmmError::Unauthorized => 3u32,
                AmmError::InvalidAmount => 4u32,
                AmmError::InsufficientLiquidity => 5u32,
                AmmError::BelowMinLiquidity => 6u32,
                AmmError::SlippageExceeded => 7u32,
                AmmError::Overflow => 8u32,
                AmmError::InvalidToken => 9u32,
            },
    {
        match self {
            AmmError::NotInitialized => 1,
            AmmError::AlreadyInitialized => 2,
            AmmError::Unauthorized => 3,
            AmmError::InvalidAmount => 4,
            AmmError::InsufficientLiquidity => 5,
            AmmError::BelowMinLiquidity => 6,
            AmmError::SlippageExceeded => 7,
            AmmError::Overflow => 8,
            AmmError::InvalidToken => 9,
        }
    }
}

/// Error codes of the pool's swap and flash-swap interface.
#[derive(Clone, Copy, Debug, PartialEq, Eq, Structural)]
pub enum AmmPoolError {
    EmptyPool,
    NonPositiveAmount,
    InsufficientReserves,
    Overflow,
    InvariantViolation,
    ReentrantFlashSwap,
}

impl AmmPoolError {
    /// The stable numeric code of the error.
    pub fn code(&self) -> (r: u32)
        ensures
            r == match *self {
                AmmPoolError::EmptyPool => 1u32,
                AmmPoolError::NonPositiveAmount => 2u32,
                AmmPoolError::InsufficientReserves => 3u32,
                AmmPoolError::Overflow => 4u32,
                AmmPoolError::InvariantViolation => 5u32,
                AmmPoolError::ReentrantFlashSwap => 6u32,
            },
    {
        match self {
            AmmPoolError::EmptyPool => 1,
            AmmPoolError::NonPositiveAmount => 2,
            AmmPoolError::InsufficientReserves => 3,
            AmmPoolError::Overflow => 4,
            AmmPoolError::InvariantViolation => 5,
            AmmPoolError::ReentrantFlashSwap => 6,
        }
    }
}

/// Snapshot of the pool's reserves.
#[derive(Clone, Copy, Debug, PartialEq, Eq, Structural)]
pub struct ReserveInfo {
    pub reserve_a: i128,
    pub reserve_b: i128,
}

/// The pool: its admin, its two tokens, both reserves and the
/// minimum-liquidity floor.
#[derive(Clone, Debug)]
pub struct AmmContract {
    pub admin: AccountId,
    pub token_a: AccountId,
    pub token_b: AccountId,
    pub reserve_a: i128,
    pub reserve_b: i128,
    pub min_liquidity: i128,
}

/// Output of a swap of `amount_in` against reserves `(reserve_in, reserve_out)`.
pub open spec fn swap_output(reserve_in: int, reserve_out: int, amount_in: int) -> int {
    (reserve_out * amount_in) / (reserve_in + amount_in)
}

pub open spec fn fits_i128(x: int) -> bool {
    i128::MIN <= x <= i128::MAX
}

impl AmmContract {
    /// Reserves and floor are never negative.
    pub open spec fn wf(&self) -> bool {
        &&& self.reserve_a >= 0
        &&& self.reserve_b >= 0
        &&& self.min_liquidity >= 0
    }

    /// The product of the reserves.
    pub open spec fn k(&self) -> int {
        self.reserve_a * self.reserve_b
    }

    /// A pool of `token_a` and `token_b` administered by `admin`, with empty
    /// reserves and a floor of zero.
    pub fn initialize(admin: AccountId, token_a: AccountId, token_b: AccountId) -> (r: AmmContract)
        ensures
            r.admin == admin,
            r.token_a == token_a,
            r.token_b == token_b,
            r.reserve_a == 0,
            r.reserve_b == 0,
            r.min_liquidity == 0,
            r.wf(),
    {
        AmmContract { admin, token_a, token_b, reserve_a: 0, reserve_b: 0, min_liquidity: 0 }
    }

    /// The admin, who authorizes changes of the floor.
    pub fn get_admin(&self) -> (r: AccountId)
        ensures
            r@ == self.admin@,
    {
        self.admin.duplicate()
    }

    /// The pool's two tokens.
    pub fn get_tokens(&self) -> (r: (AccountId, AccountId))
        ensures
            r.0@ == self.token_a@,
            r.1@ == self.token_b@,
    {
        (self.token_a.duplicate(), self.token_b.duplicate())
    }

    /// The current reserves.
    pub fn get_reserves(&self) -> (r: ReserveInfo)
        ensures
            r.reserve_a == self.reserve_a,
            r.reserve_b == self.reserve_b,
    {
        ReserveInfo { reserve_a: self.reserve_a, reserve_b: self.reserve_b }
    }

    /// The current minimum-liquidity floor.
    pub fn get_min_liquidity(&self) -> (r: i128)
        ensures
            r == self.min_liquidity,
    {
        self.min_liquidity
    }

    /// Sets the minimum-liquidity floor; a negative floor is refused.
    pub fn set_min_liquidity(&mut self, floor: i128) -> (res: Result<(), AmmError>)
        ensures
            floor < 0 ==> res == Err::<(), AmmError>(AmmError::InvalidAmount) && *final(self)
                == *old(self),
            floor >= 0 ==> res is Ok && *final(self) == (AmmContract {
                min_liquidity: floor,
                ..*old(self)
            }),
            old(self).wf() ==> final(self).wf(),
    {
        if floor < 0 {
            return Err(AmmError::InvalidAmount);
        }
        self.min_liquidity = floor;
        Ok(())
    }

    /// Adds `amount_a` of token A together with the amount of token B that
    /// keeps the price; returns that amount of B. Into an empty pool any
    /// ratio is accepted and the B amount is `max(amount_b_min, 0)`.
    pub fn add_liquidity(&mut self, amount_a: i128, amount_b_min: i128) -> (res: Result<
        i128,
        AmmError,
    >)
        requires
            old(self).wf(),
        ensures
            res is Err ==> *final(self) == *old(self),
            final(self).wf(),
            final(self).min_liquidity == old(self).min_liquidity,
            final(self).admin == old(self).admin,
            final(self).token_a == old(self).token_a,
            final(self).token_b == old(self).token_b,
            ({
                let a = old(self).reserve_a as int;
                let b = old(self).reserve_b as int;
                let empty = a == 0 && b == 0;
                let amount_b: int = if empty {
                    if amount_b_min >= 0 {
                        amount_b_min as int
                    } else {
                        0
                    }
                } else {
                    (b * amount_a) / a
                };
                if amount_a <= 0 {
                    res == Err::<i128, AmmError>(AmmError::InvalidAmount)
                } else if !empty && (!fits_i128(b * amount_a) || a == 0) {
                    res == Err::<i128, AmmError>(AmmError::Overflow)
                } else if !empty && amount_b < amount_b_min {
                    res == Err::<i128, AmmError>(AmmError::SlippageExceeded)
                } else if !fits_i128(a + amount_a) || !fits_i128(b + amount_b) {
                    res == Err::<i128, AmmError>(AmmError::Overflow)
                } else {
                    &&& res == Ok::<i128, AmmError>(amount_b as i128)
                    &&& final(self).reserve_a == a + amount_a
                    &&& final(self).reserve_b == b + amount_b
                }
            }),
    {
        if amount_a <= 0 {
            return Err(AmmError::InvalidAmount);
        }
        let reserve_a = self.reserve_a;
        let reserve_b = self.reserve_b;
        let amount_b = if reserve_a == 0 && reserve_b == 0 {
            if amount_b_min >= 0 {
                amount_b_min
            } else {
                0
            }
        } else {
            let product = match reserve_b.checked_mul(amount_a) {
                Some(p) => p,
                None => return Err(AmmError::Overflow),
            };
            if reserve_a == 0 {
                return Err(AmmError::Overflow);
            }
            proof {
                assert(product >= 0) by (nonlinear_arith)
                    requires
                        product == reserve_b * amount_a,
                        reserve_b >= 0,
                        amount_a > 0,
                ;
            }
            let required_b = product / reserve_a;
            if required_b < amount_b_min {
                return Err(AmmError::SlippageExceeded);
            }
            proof {
                assert(required_b >= 0) by (nonlinear_arith)
                    requires
                        required_b == product / reserve_a,
                        product >= 0,
                        reserve_a > 0,
                ;
            }
            required_b
        };
        let new_reserve_a = match reserve_a.checked_add(amount_a) {
            Some(v) => v,
            None => return Err(AmmError::Overflow),
        };
        let new_reserve_b = match reserve_b.checked_add(amount_b) {
            Some(v) => v,
            None => return Err(AmmError::Overflow),
        };
        self.reserve_a = new_reserve_a;
        self.reserve_b = new_reserve_b;
        Ok(amount_b)
    }

    /// Withdraws `amount_a` of A and `amount_b` of B; both reserves must
    /// stay at or above the floor. Returns the withdrawn amounts.
    pub fn remove_liquidity(&mut self, amount_a: i128, amount_b: i128) -> (res: Result<
        (i128, i128),
        AmmError,
    >)
        requires
            old(self).wf(),
        ensures
            res is Err ==> *final(self) == *old(self),
            final(self).wf(),
            final(self).min_liquidity == old(self).min_liquidity,
            final(self).admin == old(self).admin,
            final(self).token_a == old(self).token_a,
            final(self).token_b == old(self).token_b,
            ({
                let a = old(self).reserve_a;
                let b = old(self).reserve_b;
                let floor = old(self).min_liquidity;
                if amount_a <= 0 || amount_b <= 0 {
                    res == Err::<(i128, i128), AmmError>(AmmError::InvalidAmount)
                } else if amount_a > a || amount_b > b {
                    res == Err::<(i128, i128), AmmError>(AmmError::InsufficientLiquidity)
                } else if a - amount_a < floor || b - amount_b < floor {
                    res == Err::<(i128, i128), AmmError>(AmmError::BelowMinLiquidity)
                } else {
                    &&& res == Ok::<(i128, i128), AmmError>((amount_a, amount_b))
                    &&& final(self).reserve_a == a - amount_a
                    &&& final(self).reserve_b == b - amount_b
                }
            }),
    {
        if amount_a <= 0 || amount_b <= 0 {
            return Err(AmmError::InvalidAmount);
        }
        let reserve_a = self.reserve_a;
        let reserve_b = self.reserve_b;
        if amount_a > reserve_a || amount_b > reserve_b {
            return Err(AmmError::InsufficientLiquidity);
        }
        let new_reserve_a = reserve_a - amount_a;
        let new_reserve_b = reserve_b - amount_b;
        let floor = self.min_liquidity;
        if new_reserve_a < floor {
            return Err(AmmError::BelowMinLiquidity);
        }
        if new_reserve_b < floor {
            return Err(AmmError::BelowMinLiquidity);
        }
        self.reserve_a = new_reserve_a;
        self.reserve_b = new_reserve_b;
        Ok((amount_a, amount_b))
    }

    /// Shared swap step: `amount_in` enters the reserve `reserve_in` and the
    /// constant-product output leaves `reserve_out`.
    fn swap_amounts(
        reserve_in: i128,
        reserve_out: i128,
        floor: i128,
        amount_in: i128,
        amount_out_min: i128,
    ) -> (res: Result<(i128, i128, i128), AmmError>)
        requires
            reserve_in >= 0,
            reserve_out >= 0,
            floor >= 0,
        ensures
            swap_outcome(reserve_in as int, reserve_out as int, floor as int, amount_in as int, amount_out_min as int) == match res {
                Ok(t) => Ok::<(int, int, int), AmmError>((t.0 as int, t.1 as int, t.2 as int)),
                Err(e) => Err::<(int, int, int), AmmError>(e),
            },
            res matches Ok(t) ==> t.1 >= 0 && t.2 >= 0,
    {
        if amount_in <= 0 {
            return Err(AmmError::InvalidAmount);
        }
        if reserve_in == 0 || reserve_out == 0 {
            return Err(AmmError::InsufficientLiquidity);
        }
        let numerator = match reserve_out.checked_mul(amount_in) {
            Some(v) => v,
            None => return Err(AmmError::Overflow),
        };
        let denominator = match reserve_in.checked_add(amount_in) {
            Some(v) => v,
            None => return Err(AmmError::Overflow),
        };
        proof {
            assert(numerator >= 0) by (nonlinear_arith)
                requires
                    numerator == reserve_out * amount_in,
                    reserve_out >= 0,
                    amount_in > 0,
            ;
            law_swap_output_below_reserve(reserve_in as int, reserve_out as int, amount_in as int);
        }
        let amount_out = numerator / denominator;
        if amount_out <= 0 {
            return Err(AmmError::InvalidAmount);
        }
        if amount_out < amount_out_min {
            return Err(AmmError::SlippageExceeded);
        }
        let new_reserve_in = denominator;
        let new_reserve_out = reserve_out - amount_out;
        if new_reserve_out < floor {
            return Err(AmmError::BelowMinLiquidity);
        }
        Ok((amount_out, new_reserve_in, new_reserve_out))
    }

    /// Swaps exactly `amount_a_in` of A for at least `amount_b_out_min` of
    /// B; reserve B must stay at or above the floor. Returns the B paid out.
    pub fn swap_exact_a_for_b(&mut self, amount_a_in: i128, amount_b_out_min: i128) -> (res:
        Result<i128, AmmError>)
        requires
            old(self).wf(),
        ensures
            res is Err ==> *final(self) == *old(self),
            final(self).wf(),
            final(self).min_liquidity == old(self).min_liquidity,
            final(self).admin == old(self).admin,
            final(self).token_a == old(self).token_a,
            final(self).token_b == old(self).token_b,
            match swap_outcome(
                old(self).reserve_a as int,
                old(self).reserve_b as int,
                old(self).min_liquidity as int,
                amount_a_in as int,
                amount_b_out_min as int,
            ) {
                Ok(t) => res == Ok::<i128, AmmError>(t.0 as i128) && final(self).reserve_a == t.1
                    && final(self).reserve_b == t.2,
                Err(e) => res == Err::<i128, AmmError>(e),
            },
    {
        let (out, new_a, new_b) = Self::swap_amounts(
            self.reserve_a,
            self.reserve_b,
            self.min_liquidity,
            amount_a_in,
            amount_b_out_min,
        )?;
        self.reserve_a = new_a;
        self.reserve_b = new_b;
        Ok(out)
    }

    /// Swaps exactly `amount_b_in` of B for at least `amount_a_out_min` of
    /// A; reserve A must stay at or above the floor. Returns the A paid out.
    pub fn swap_exact_b_for_a(&mut self, amount_b_in: i128, amount_a_out_min: i128) -> (res:
        Result<i128, AmmError>)
        requires
            old(self).wf(),
        ensures
            res is Err ==> *final(self) == *old(self),
            final(self).wf(),
            final(self).min_liquidity == old(self).min_liquidity,
            final(self).admin == old(self).admin,
            final(self).token_a == old(self).token_a,
            final(self).token_b == old(self).token_b,
            match swap_outcome(
                old(self).reserve_b as int,
                old(self).reserve_a as int,
                old(self).min_liquidity as int,
                amount_b_in as int,
                amount_a_out_min as int,
            ) {
                Ok(t) => res == Ok::<i128, AmmError>(t.0 as i128) && final(self).reserve_b == t.1
                    && final(self).reserve_a == t.2,
                Err(e) => res == Err::<i128, AmmError>(e),
            },
    {
        let (out, new_b, new_a) = Self::swap_amounts(
            self.reserve_b,
            self.reserve_a,
            self.min_liquidity,
            amount_b_in,
            amount_a_out_min,
        )?;
        self.reserve_a = new_a;
        self.reserve_b = new_b;
        Ok(out)
    }
}

/// Outcome of swapping `amount_in` into `reserve_in` against `reserve_out`
/// with the given floor and minimum output: the output and the two new
/// reserves, or the reason for refusal.
pub open spec fn swap_outcome(
    reserve_in: int,
    reserve_out: int,
    floor: int,
    amount_in: int,
    amount_out_min: int,
) -> Result<(int, int, int), AmmError> {
    if amount_in <= 0 {
        Err(AmmError::InvalidAmount)
    } else if reserve_in == 0 || reserve_out == 0 {
        Err(AmmError::InsufficientLiquidity)
    } else if !fits_i128(reserve_out * amount_in) || !fits_i128(reserve_in + amount_in) {
        Err(AmmError::Overflow)
    } else {
        let out = swap_output(reserve_in, reserve_out, amount_in);
        if out <= 0 {
            Err(AmmError::InvalidAmount)
        } else if out < amount_out_min {
            Err(AmmError::SlippageExceeded)
        } else if reserve_out - out < floor {
            Err(AmmError::BelowMinLiquidity)
        } else {
            Ok((out, reserve_in + amount_in, reserve_out - out))
        }
    }
}

/// A swap never pays out the whole reserve: with a positive input reserve
/// the output stays strictly below the output reserve (and is not negative).
pub proof fn law_swap_output_below_reserve(reserve_in: int, reserve_out: int, amount_in: int)
    requires
        reserve_in > 0,
        reserve_out >= 0,
        amount_in > 0,
    ensures
        0 <= swap_output(reserve_in, reserve_out, amount_in),
        reserve_out > 0 ==> swap_output(reserve_in, reserve_out, amount_in) < reserve_out,
        reserve_out == 0 ==> swap_output(reserve_in, reserve_out, amount_in) == 0,
{
    let d = reserve_in + amount_in;
    let n = reserve_out * amount_in;
    assert(0 <= n / d) by (nonlinear_arith)
        requires
            n == reserve_out * amount_in,
            reserve_out >= 0,
            amount_in > 0,
            d > 0,
    ;
    if reserve_out > 0 {
        assert(n < reserve_out * d) by (nonlinear_arith)
            requires
                n == reserve_out * amount_in,
                d == reserve_in + amount_in,
                reserve_in > 0,
                reserve_out > 0,
        ;
        assert(n / d < reserve_out) by (nonlinear_arith)
            requires
                0 <= n < reserve_out * d,
                d > 0,
        ;
    } else {
        assert(n == 0);
    }
}

/// A swap never lowers the product of the reserves: the truncated output
/// leaves `(reserve_in + amount_in) * (reserve_out - out) >= reserve_in * reserve_out`.
pub proof fn law_swap_preserves_k(reserve_in: int, reserve_out: int, amount_in: int)
    requires
        reserve_in > 0,
        reserve_out >= 0,
        amount_in > 0,
    ensures
        (reserve_in + amount_in) * (reserve_out - swap_output(reserve_in, reserve_out, amount_in))
            >= reserve_in * reserve_out,
{
    let d = reserve_in + amount_in;
    let n = reserve_out * amount_in;
    let out = n / d;
    assert(out * d <= n) by (nonlinear_arith)
        requires
            out == n / d,
            d > 0,
            n >= 0,
    ;
    assert(d * (reserve_out - out) == reserve_in * reserve_out + n - out * d) by (nonlinear_arith)
        requires
            d == reserve_in + amount_in,
            n == reserve_out * amount_in,
    ;
}

/// Adding liquidity never lowers the product of the reserves, and raises
/// it when both reserves were positive.
pub proof fn law_add_liquidity_grows_k(a: int, b: int, amount_a: int, amount_b: int)
    requires
        a >= 0,
        b >= 0,
        amount_a > 0,
        amount_b >= 0,
    ensures
        (a + amount_a) * (b + amount_b) >= a * b,
        (a > 0 && b > 0) ==> (a + amount_a) * (b + amount_b) > a * b,
{
    assert((a + amount_a) * (b + amount_b) == a * b + a * amount_b + amount_a * b + amount_a
        * amount_b) by (nonlinear_arith);
    assert(a * amount_b >= 0 && amount_a * b >= 0 && amount_a * amount_b >= 0) by (nonlinear_arith)
        requires
            a >= 0,
            b >= 0,
            amount_a > 0,
            amount_b >= 0,
    ;
    if a > 0 && b > 0 {
        assert(amount_a * b > 0) by (nonlinear_arith)
            requires
                amount_a > 0,
                b > 0,
        ;
    }
}

/// A round trip gains nothing: swapping `x` of A for B and then all that B
/// back for A returns at most `x`.
pub proof fn law_round_trip_returns_at_most_input(a: int, b: int, x: int)
    requires
        a > 0,
        b > 0,
        x > 0,
        swap_output(a, b, x) > 0,
    ensures
        swap_output(b - swap_output(a, b, x), a + x, swap_output(a, b, x)) <= x,
{
    let y = swap_output(a, b, x);
    law_swap_output_below_reserve(a, b, x);
    assert(y * (a + x) <= b * x) by (nonlinear_arith)
        requires
            y == (b * x) / (a + x),
            a + x > 0,
            b * x >= 0,
    ;
    let b2 = b - y;
    assert(b2 + y == b);
    let back = ((a + x) * y) / b;
    assert(back <= x) by (nonlinear_arith)
        requires
            back == ((a + x) * y) / b,
            y * (a + x) <= b * x,
            b > 0,
            y >= 0,
            a + x > 0,
    ;
}

} // verus!
