//! The lending protocol's rules: admin rotation, the emergency circuit
//! breaker, deposits against a cap, withdrawals, borrowing against a debt
//! ceiling, repayment, liquidation, position summaries and flash loans.
//!
//! A refused operation either returns one of the protocol's errors to its
//! caller or aborts the whole invocation; both leave the state unchanged.
use vstd::prelude::*;
use crate::account::AccountId;
use crate::debt::{
    borrow_amount, debt_at, effective_debt, remaining_after_payment, repay_amount, DebtPosition,
    DEFAULT_APR_BPS,
};
use crate::rate_model::EVENT_SCHEMA_VERSION;
use crate::rounding::{div_toward_zero, in_i128};

verus! {

/// Deposit cap in force until one is configured.
pub const DEFAULT_DEPOSIT_CAP: i128 = 100_000_000_000;

/// Flash-loan fee in force until one is configured, in basis points.
pub const DEFAULT_FLASH_FEE_BPS: i128 = 5;

/// Highest flash-loan fee that may be configured, in basis points.
pub const MAX_FLASH_FEE_BPS: i128 = 1_000;

/// Collateral weight used for health factors, in basis points.
pub const LIQUIDATION_THRESHOLD_BPS: i128 = 8_000;

/// Share of a debt that one liquidation may repay, in basis points.
pub const CLOSE_FACTOR_BPS: i128 = 5_000;

/// Liquidator bonus on seized collateral, in basis points.
pub const LIQUIDATION_INCENTIVE_BPS: i128 = 1_000;

/// Health factor reported for a position without debt.
pub const HEALTH_FACTOR_NO_DEBT: i128 = 1_000_000;

/// The protocol-wide circuit breaker.
#[derive(Clone, Copy, Debug, PartialEq, Eq, Structural)]
pub enum EmergencyState {
    Normal,
    Shutdown,
    Recovery,
}

/// The user operations the circuit breaker governs.
#[derive(Clone, Copy, Debug, PartialEq, Eq, Structural)]
pub enum ProtocolAction {
    Deposit,
    Withdraw,
    Borrow,
    Repay,
}

/// Errors returned to the caller.
#[derive(Clone, Copy, Debug, PartialEq, Eq, Structural)]
pub enum LendingError {
    BelowMinimumBorrow,
    NotInitialized,
    AlreadyInitialized,
    DebtCeilingExceeded,
    DepositCapExceeded,
    Overflow,
    Unauthorized,
    InvalidFeeBps,
    PositionHealthy,
}

impl LendingError {
    /// The stable numeric code of the error.
    pub fn code(&self) -> (r: u32)
        ensures
            r == match *self {
                LendingError::BelowMinimumBorrow => 1008u32,
                LendingError::NotInitialized => 1009u32,
                LendingError::AlreadyInitialized => 1010u32,
                LendingError::DebtCeilingExceeded => 2001u32,
                LendingError::DepositCapExceeded => 2002u32,
                LendingError::Overflow => 2003u32,
                LendingError::Unauthorized => 2004u32,
                LendingError::InvalidFeeBps => 2005u32,
                LendingError::PositionHealthy => 2006u32,
            },
    {
        match self {
            LendingError::BelowMinimumBorrow => 1008,
            LendingError::NotInitialized => 1009,
            LendingError::AlreadyInitialized => 1010,
            LendingError::DebtCeilingExceeded => 2001,
            LendingError::DepositCapExceeded => 2002,
            LendingError::Overflow => 2003,
            LendingError::Unauthorized => 2004,
            LendingError::InvalidFeeBps => 2005,
            LendingError::PositionHealthy => 2006,
        }
    }
}

/// Reasons for which an invocation is aborted as a whole.
#[derive(Clone, Copy, Debug, PartialEq, Eq, Structural)]
pub enum AbortReason {
    OperationDisabledDuringShutdown,
    ActionBlockedInRecovery,
    FlashLoanReentrancy,
    Overflow,
    DepositCapExceeded,
    InsufficientCollateral,
    BelowMinimumBorrow,
    DebtOperationFailed,
    InsufficientLiquidity,
    FeeOverflow,
    TreasuryUnderflow,
    ReceiverOverflow,
    RequiredBalanceOverflow,
    InsufficientRepayment,
    InsufficientBalance,
    PayerUnderflow,
    TreasuryOverflow,
}

impl AbortReason {
    /// The message the invocation aborts with.
    pub fn message(&self) -> (r: &'static str)
        ensures
            *self == AbortReason::OperationDisabledDuringShutdown ==> r@
                == "OperationDisabledDuringShutdown"@,
            *self == AbortReason::ActionBlockedInRecovery ==> r@ == "ActionBlockedInRecovery"@,
            *self == AbortReason::FlashLoanReentrancy ==> r@ == "FlashLoanReentrancy"@,
            *self == AbortReason::Overflow ==> r@ == "Overflow"@,
            *self == AbortReason::DepositCapExceeded ==> r@ == "DepositCapExceeded"@,
            *self == AbortReason::InsufficientCollateral ==> r@ == "InsufficientCollateral"@,
            *self == AbortReason::BelowMinimumBorrow ==> r@ == "BelowMinimumBorrow"@,
            *self == AbortReason::DebtOperationFailed ==> r@ == "debt operation failed"@,
            *self == AbortReason::InsufficientLiquidity ==> r@ == "InsufficientLiquidity"@,
            *self == AbortReason::FeeOverflow ==> r@ == "fee overflow"@,
            *self == AbortReason::TreasuryUnderflow ==> r@ == "treasury underflow"@,
            *self == AbortReason::ReceiverOverflow ==> r@ == "receiver overflow"@,
            *self == AbortReason::RequiredBalanceOverflow ==> r@ == "required balance overflow"@,
            *self == AbortReason::InsufficientRepayment ==> r@ == "InsufficientRepayment"@,
            *self == AbortReason::InsufficientBalance ==> r@ == "InsufficientBalance"@,
            *self == AbortReason::PayerUnderflow ==> r@ == "payer underflow"@,
            *self == AbortReason::TreasuryOverflow ==> r@ == "treasury overflow"@,
    {
        match self {
            AbortReason::OperationDisabledDuringShutdown => "OperationDisabledDuringShutdown",
            AbortReason::ActionBlockedInRecovery => "ActionBlockedInRecovery",
            AbortReason::FlashLoanReentrancy => "FlashLoanReentrancy",
            AbortReason::Overflow => "Overflow",
            AbortReason::DepositCapExceeded => "DepositCapExceeded",
            AbortReason::InsufficientCollateral => "InsufficientCollateral",
            AbortReason::BelowMinimumBorrow => "BelowMinimumBorrow",
            AbortReason::DebtOperationFailed => "debt operation failed",
            AbortReason::InsufficientLiquidity => "InsufficientLiquidity",
            AbortReason::FeeOverflow => "fee overflow",
            AbortReason::TreasuryUnderflow => "treasury underflow",
            AbortReason::ReceiverOverflow => "receiver overflow",
            AbortReason::RequiredBalanceOverflow => "required balance overflow",
            AbortReason::InsufficientRepayment => "InsufficientRepayment",
            AbortReason::InsufficientBalance => "InsufficientBalance",
            AbortReason::PayerUnderflow => "payer underflow",
            AbortReason::TreasuryOverflow => "treasury overflow",
        }
    }
}

/// How a refused operation fails: by aborting the invocation, or by
/// returning an error to the caller.
#[derive(Clone, Copy, Debug, PartialEq, Eq, Structural)]
pub enum LendingFailure {
    Abort(AbortReason),
    Error(LendingError),
}

/// A user's collateral, debt and health factor.
#[derive(Clone, Copy, Debug, PartialEq, Eq, Structural)]
pub struct PositionSummary {
    pub collateral: i128,
    pub debt: i128,
    pub health_factor: i128,
}

/// The balances a flash loan leaves before its callback runs.
#[derive(Clone, Copy, Debug, PartialEq, Eq, Structural)]
pub struct FlashLoanStart {
    pub fee: i128,
    pub treasury_balance: i128,
    pub receiver_balance: i128,
}

/// The result of a liquidation.
#[derive(Clone, Copy, Debug, PartialEq, Eq, Structural)]
pub struct LiquidationOutcome {
    pub repaid: i128,
    pub new_debt: i128,
    pub new_collateral: i128,
}

/// The protocol-wide state of the lending contract.
#[derive(Clone, Debug)]
pub struct LendingContract {
    pub admin: Option<AccountId>,
    pub pending_admin: Option<AccountId>,
    pub emergency_state: EmergencyState,
    pub guardian: Option<AccountId>,
    pub min_borrow: i128,
    pub flash_active: bool,
    pub flash_fee_bps: i128,
    pub total_debt: i128,
    pub total_deposits: i128,
    pub debt_ceiling: i128,
    pub deposit_cap: i128,
}

/// The kinds of position change the protocol announces.
#[derive(Clone, Copy, Debug, PartialEq, Eq, Structural)]
pub enum PositionEventKind {
    Deposit,
    Withdraw,
    Borrow,
    Repay,
}

/// Published after a successful deposit, withdrawal, borrow or repayment:
/// the amount moved and the user's resulting collateral (deposit,
/// withdrawal) or debt (borrow, repayment).
#[derive(Clone, Copy, Debug, PartialEq, Eq, Structural)]
pub struct PositionEvent {
    pub schema_version: u32,
    pub kind: PositionEventKind,
    pub amount: i128,
    pub new_value: i128,
}

/// The event for a position change of `kind`.
pub open spec fn position_event(kind: PositionEventKind, amount: i128, new_value: i128) -> PositionEvent {
    PositionEvent { schema_version: EVENT_SCHEMA_VERSION, kind, amount, new_value }
}

/// `total - by`, kept within `0..=i128::MAX`: an aggregate lowered by a
/// payment or a seizure never turns negative.
pub open spec fn lowered_total(total: int, by: int) -> int {
    let x = total - by;
    if x < 0 {
        0
    } else if x > i128::MAX {
        i128::MAX as int
    } else {
        x
    }
}

fn lower_total(total: i128, by: i128) -> (r: i128)
    ensures
        r == lowered_total(total as int, by as int),
{
    match total.checked_sub(by) {
        Some(x) => if x < 0 {
            0
        } else {
            x
        },
        None => if by > 0 {
            0
        } else {
            i128::MAX
        },
    }
}

/// Whether `action` may run in `state`: everything in normal operation,
/// nothing during shutdown, only repayments and withdrawals in recovery.
pub open spec fn action_allowed(state: EmergencyState, action: ProtocolAction) -> bool {
    match state {
        EmergencyState::Normal => true,
        EmergencyState::Shutdown => false,
        EmergencyState::Recovery => action == ProtocolAction::Repay || action
            == ProtocolAction::Withdraw,
    }
}

/// The abort the circuit breaker raises for a blocked action.
pub open spec fn blocked_reason(state: EmergencyState) -> AbortReason {
    if state == EmergencyState::Shutdown {
        AbortReason::OperationDisabledDuringShutdown
    } else {
        AbortReason::ActionBlockedInRecovery
    }
}

/// Copies an optional identity.
fn duplicate_option(a: &Option<AccountId>) -> (r: Option<AccountId>)
    ensures
        r is Some <==> a is Some,
        r is Some ==> r->Some_0@ == a->Some_0@,
{
    match a {
        Some(x) => Some(x.duplicate()),
        None => None,
    }
}

impl LendingContract {
    /// The fields that only administration changes are equal in `a` and `b`.
    pub open spec fn same_config(a: LendingContract, b: LendingContract) -> bool {
        &&& a.admin == b.admin
        &&& a.pending_admin == b.pending_admin
        &&& a.emergency_state == b.emergency_state
        &&& a.guardian == b.guardian
        &&& a.min_borrow == b.min_borrow
        &&& a.flash_fee_bps == b.flash_fee_bps
        &&& a.debt_ceiling == b.debt_ceiling
        &&& a.deposit_cap == b.deposit_cap
    }

    /// A contract that has not been initialized: no admin, normal state and
    /// the default limits.
    pub fn new() -> (r: LendingContract)
        ensures
            r.admin is None,
            r.pending_admin is None,
            r.emergency_state == EmergencyState::Normal,
            r.guardian is None,
            r.min_borrow == 0,
            !r.flash_active,
            r.flash_fee_bps == DEFAULT_FLASH_FEE_BPS,
            r.total_debt == 0,
            r.total_deposits == 0,
            r.debt_ceiling == i128::MAX,
            r.deposit_cap == DEFAULT_DEPOSIT_CAP,
    {
        LendingContract {
            admin: None,
            pending_admin: None,
            emergency_state: EmergencyState::Normal,
            guardian: None,
            min_borrow: 0,
            flash_active: false,
            flash_fee_bps: DEFAULT_FLASH_FEE_BPS,
            total_debt: 0,
            total_deposits: 0,
            debt_ceiling: i128::MAX,
            deposit_cap: DEFAULT_DEPOSIT_CAP,
        }
    }

    /// Sets the admin once; a second initialization is refused.
    pub fn initialize(&mut self, admin: AccountId) -> (res: Result<(), LendingError>)
        ensures
            old(self).admin is Some ==> res == Err::<(), LendingError>(
                LendingError::AlreadyInitialized,
            ) && *final(self) == *old(self),
            old(self).admin is None ==> res is Ok && *final(self) == (LendingContract {
                admin: Some(admin),
                emergency_state: EmergencyState::Normal,
                ..*old(self)
            }),
    {
        if self.admin.is_some() {
            return Err(LendingError::AlreadyInitialized);
        }
        self.admin = Some(admin);
        self.emergency_state = EmergencyState::Normal;
        Ok(())
    }

    /// The current admin.
    pub fn get_admin(&self) -> (res: Result<AccountId, LendingError>)
        ensures
            self.admin is None ==> res == Err::<AccountId, LendingError>(
                LendingError::NotInitialized,
            ),
            self.admin is Some ==> res is Ok && res->Ok_0@ == self.admin->Some_0@,
    {
        match &self.admin {
            Some(a) => Ok(a.duplicate()),
            None => Err(LendingError::NotInitialized),
        }
    }

    /// Nominates `new_admin`; returns the current admin, whose authorization
    /// the change requires.
    pub fn propose_admin(&mut self, new_admin: AccountId) -> (res: Result<AccountId, LendingError>)
        ensures
            old(self).admin is None ==> res == Err::<AccountId, LendingError>(
                LendingError::NotInitialized,
            ) && *final(self) == *old(self),
            old(self).admin is Some ==> res is Ok && res->Ok_0@ == old(self).admin->Some_0@
                && *final(self) == (LendingContract { pending_admin: Some(new_admin), ..*old(self) }),
    {
        let admin = self.get_admin()?;
        self.pending_admin = Some(new_admin);
        Ok(admin)
    }

    /// Completes a rotation: the nominee becomes admin; returns the nominee,
    /// whose authorization the change requires.
    pub fn accept_admin(&mut self) -> (res: Result<AccountId, LendingError>)
        ensures
            old(self).pending_admin is None ==> res == Err::<AccountId, LendingError>(
                LendingError::NotInitialized,
            ) && *final(self) == *old(self),
            old(self).pending_admin is Some ==> res is Ok && res->Ok_0@ == old(
                self,
            ).pending_admin->Some_0@ && *final(self) == (LendingContract {
                admin: old(self).pending_admin,
                pending_admin: None,
                ..*old(self)
            }),
    {
        let pending = match self.pending_admin.take() {
            Some(p) => p,
            None => return Err(LendingError::NotInitialized),
        };
        let signer = pending.duplicate();
        self.admin = Some(pending);
        Ok(signer)
    }

    /// Sets the minimum borrow; returns the admin who must authorize it.
    pub fn set_min_borrow(&mut self, min_borrow: i128) -> (res: Result<AccountId, LendingError>)
        ensures
            old(self).admin is None ==> res == Err::<AccountId, LendingError>(
                LendingError::NotInitialized,
            ) && *final(self) == *old(self),
            old(self).admin is Some ==> res is Ok && res->Ok_0@ == old(self).admin->Some_0@
                && *final(self) == (LendingContract { min_borrow, ..*old(self) }),
    {
        let admin = self.get_admin()?;
        self.min_borrow = min_borrow;
        Ok(admin)
    }

    /// The minimum amount a borrow must reach.
    pub fn get_min_borrow(&self) -> (r: i128)
        ensures
            r == self.min_borrow,
    {
        self.min_borrow
    }

    /// Sets the protocol debt ceiling; returns the admin who must authorize it.
    pub fn set_debt_ceiling(&mut self, ceiling: i128) -> (res: Result<AccountId, LendingError>)
        ensures
            old(self).admin is None ==> res == Err::<AccountId, LendingError>(
                LendingError::NotInitialized,
            ) && *final(self) == *old(self),
            old(self).admin is Some ==> res is Ok && res->Ok_0@ == old(self).admin->Some_0@
                && *final(self) == (LendingContract { debt_ceiling: ceiling, ..*old(self) }),
    {
        let admin = self.get_admin()?;
        self.debt_ceiling = ceiling;
        Ok(admin)
    }

    /// Sets the flash-loan fee, which must lie in `0..=1000` basis points;
    /// returns the admin who must authorize it.
    pub fn set_flash_fee(&mut self, fee_bps: i128) -> (res: Result<AccountId, LendingError>)
        ensures
            old(self).admin is None ==> res == Err::<AccountId, LendingError>(
                LendingError::NotInitialized,
            ) && *final(self) == *old(self),
            old(self).admin is Some && !(0 <= fee_bps <= MAX_FLASH_FEE_BPS) ==> res == Err::<
                AccountId,
                LendingError,
            >(LendingError::InvalidFeeBps) && *final(self) == *old(self),
            old(self).admin is Some && 0 <= fee_bps <= MAX_FLASH_FEE_BPS ==> res is Ok
                && res->Ok_0@ == old(self).admin->Some_0@ && *final(self) == (LendingContract {
                flash_fee_bps: fee_bps,
                ..*old(self)
            }),
    {
        let admin = self.get_admin()?;
        if !(0 <= fee_bps && fee_bps <= MAX_FLASH_FEE_BPS) {
            return Err(LendingError::InvalidFeeBps);
        }
        self.flash_fee_bps = fee_bps;
        Ok(admin)
    }

    /// Sets the guardian; returns the admin who must authorize it.
    pub fn set_guardian(&mut self, guardian: AccountId) -> (res: Result<AccountId, LendingError>)
        ensures
            old(self).admin is None ==> res == Err::<AccountId, LendingError>(
                LendingError::NotInitialized,
            ) && *final(self) == *old(self),
            old(self).admin is Some ==> res is Ok && res->Ok_0@ == old(self).admin->Some_0@
                && *final(self) == (LendingContract { guardian: Some(guardian), ..*old(self) }),
    {
        let admin = self.get_admin()?;
        self.guardian = Some(guardian);
        Ok(admin)
    }

    /// Switches the circuit breaker; returns the account that must authorize
    /// it (the guardian when one is set, else the admin) and the previous
    /// state.
    pub fn set_emergency_state(&mut self, new_state: EmergencyState) -> (res: Result<
        (AccountId, EmergencyState),
        LendingError,
    >)
        ensures
            old(self).admin is None ==> res == Err::<(AccountId, EmergencyState), LendingError>(
                LendingError::NotInitialized,
            ) && *final(self) == *old(self),
            old(self).admin is Some ==> res is Ok && res->Ok_0.1 == old(self).emergency_state
                && res->Ok_0.0@ == (match old(self).guardian {
                Some(g) => g@,
                None => old(self).admin->Some_0@,
            }) && *final(self) == (LendingContract { emergency_state: new_state, ..*old(self) }),
    {
        let admin = self.get_admin()?;
        let signer = match &self.guardian {
            Some(g) => g.duplicate(),
            None => admin,
        };
        let old_state = self.emergency_state;
        self.emergency_state = new_state;
        Ok((signer, old_state))
    }

    /// The circuit breaker's verdict on `action`.
    pub fn check_emergency_status(&self, action: ProtocolAction) -> (res: Result<(), AbortReason>)
        ensures
            action_allowed(self.emergency_state, action) <==> res is Ok,
            res is Err ==> res->Err_0 == blocked_reason(self.emergency_state),
    {
        match self.emergency_state {
            EmergencyState::Normal => Ok(()),
            EmergencyState::Shutdown => Err(AbortReason::OperationDisabledDuringShutdown),
            EmergencyState::Recovery => match action {
                ProtocolAction::Repay | ProtocolAction::Withdraw => Ok(()),
                _ => Err(AbortReason::ActionBlockedInRecovery),
            },
        }
    }

    /// Deposits `amount` onto a user's `collateral`, within the deposit cap;
    /// returns the user's new collateral and the event to publish. The
    /// protocol's total deposits grow by `amount`.
    pub fn deposit(&mut self, collateral: i128, amount: i128) -> (res: Result<
        (i128, PositionEvent),
        LendingFailure,
    >)
        ensures
            res is Err ==> *final(self) == *old(self),
            res is Ok ==> final(self).total_deposits <= final(self).deposit_cap,
            res is Ok ==> final(self).total_deposits - old(self).total_deposits == res->Ok_0.0
                - collateral,
            Self::same_config(*final(self), *old(self)),
            final(self).flash_active == old(self).flash_active,
            final(self).total_debt == old(self).total_debt,
            ({
                let total = old(self).total_deposits + amount;
                if !action_allowed(old(self).emergency_state, ProtocolAction::Deposit) {
                    res == Err::<(i128, PositionEvent), LendingFailure>(
                        LendingFailure::Abort(blocked_reason(old(self).emergency_state)),
                    )
                } else if old(self).flash_active {
                    res == Err::<(i128, PositionEvent), LendingFailure>(
                        LendingFailure::Abort(AbortReason::FlashLoanReentrancy),
                    )
                } else if !in_i128(total) {
                    res == Err::<(i128, PositionEvent), LendingFailure>(
                        LendingFailure::Abort(AbortReason::Overflow),
                    )
                } else if total > old(self).deposit_cap {
                    res == Err::<(i128, PositionEvent), LendingFailure>(
                        LendingFailure::Abort(AbortReason::DepositCapExceeded),
                    )
                } else if !in_i128(collateral + amount) {
                    res == Err::<(i128, PositionEvent), LendingFailure>(
                        LendingFailure::Abort(AbortReason::Overflow),
                    )
                } else {
                    &&& res == Ok::<(i128, PositionEvent), LendingFailure>(
                        (
                            (collateral + amount) as i128,
                            position_event(
                                PositionEventKind::Deposit,
                                amount,
                                (collateral + amount) as i128,
                            ),
                        ),
                    )
                    &&& final(self).total_deposits == total
                }
            }),
    {
        if let Err(r) = self.check_emergency_status(ProtocolAction::Deposit) {
            return Err(LendingFailure::Abort(r));
        }
        if self.flash_active {
            return Err(LendingFailure::Abort(AbortReason::FlashLoanReentrancy));
        }
        let new_total = match self.total_deposits.checked_add(amount) {
            Some(t) => t,
            None => return Err(LendingFailure::Abort(AbortReason::Overflow)),
        };
        if new_total > self.deposit_cap {
            return Err(LendingFailure::Abort(AbortReason::DepositCapExceeded));
        }
        let new_balance = match collateral.checked_add(amount) {
            Some(b) => b,
            None => return Err(LendingFailure::Abort(AbortReason::Overflow)),
        };
        self.total_deposits = new_total;
        Ok((new_balance, Self::event(PositionEventKind::Deposit, amount, new_balance)))
    }

    /// Withdraws `amount` from a user's `collateral`; returns the new
    /// collateral and the event to publish. The protocol's total deposits
    /// shrink by `amount`.
    pub fn withdraw(&mut self, collateral: i128, amount: i128) -> (res: Result<
        (i128, PositionEvent),
        LendingFailure,
    >)
        ensures
            res is Err ==> *final(self) == *old(self),
            res is Ok ==> *final(self) == (LendingContract {
                total_deposits: (old(self).total_deposits - amount) as i128,
                ..*old(self)
            }),
            res is Ok ==> final(self).total_deposits - old(self).total_deposits == res->Ok_0.0
                - collateral,
            ({
                let state = old(self).emergency_state;
                if !action_allowed(state, ProtocolAction::Withdraw) {
                    res == Err::<(i128, PositionEvent), LendingFailure>(
                        LendingFailure::Abort(blocked_reason(state)),
                    )
                } else if old(self).flash_active {
                    res == Err::<(i128, PositionEvent), LendingFailure>(
                        LendingFailure::Abort(AbortReason::FlashLoanReentrancy),
                    )
                } else if amount > collateral {
                    res == Err::<(i128, PositionEvent), LendingFailure>(
                        LendingFailure::Abort(AbortReason::InsufficientCollateral),
                    )
                } else if !in_i128(collateral - amount) || !in_i128(
                    old(self).total_deposits - amount,
                ) {
                    res == Err::<(i128, PositionEvent), LendingFailure>(
                        LendingFailure::Abort(AbortReason::Overflow),
                    )
                } else {
                    res == Ok::<(i128, PositionEvent), LendingFailure>(
                        (
                            (collateral - amount) as i128,
                            position_event(
                                PositionEventKind::Withdraw,
                                amount,
                                (collateral - amount) as i128,
                            ),
                        ),
                    )
                }
            }),
    {
        if let Err(r) = self.check_emergency_status(ProtocolAction::Withdraw) {
            return Err(LendingFailure::Abort(r));
        }
        if self.flash_active {
            return Err(LendingFailure::Abort(AbortReason::FlashLoanReentrancy));
        }
        if amount > collateral {
            return Err(LendingFailure::Abort(AbortReason::InsufficientCollateral));
        }
        let new_balance = match collateral.checked_sub(amount) {
            Some(b) => b,
            None => return Err(LendingFailure::Abort(AbortReason::Overflow)),
        };
        let new_total = match self.total_deposits.checked_sub(amount) {
            Some(t) => t,
            None => return Err(LendingFailure::Abort(AbortReason::Overflow)),
        };
        self.total_deposits = new_total;
        Ok((new_balance, Self::event(PositionEventKind::Withdraw, amount, new_balance)))
    }

    /// Borrows `amount` at `now` against `position`, within the minimum
    /// borrow and the debt ceiling; interest accrued so far is settled
    /// first. Returns the updated position and the event to publish.
    pub fn borrow(&mut self, position: DebtPosition, now: u64, amount: i128) -> (res: Result<
        (DebtPosition, PositionEvent),
        LendingFailure,
    >)
        ensures
            res is Err ==> *final(self) == *old(self),
            res is Ok ==> final(self).total_debt <= final(self).debt_ceiling,
            Self::same_config(*final(self), *old(self)),
            final(self).flash_active == old(self).flash_active,
            final(self).total_deposits == old(self).total_deposits,
            ({
                let total = old(self).total_debt + amount;
                let d = debt_at(position, now, DEFAULT_APR_BPS);
                if !action_allowed(old(self).emergency_state, ProtocolAction::Borrow) {
                    res == Err::<(DebtPosition, PositionEvent), LendingFailure>(
                        LendingFailure::Abort(blocked_reason(old(self).emergency_state)),
                    )
                } else if amount < old(self).min_borrow {
                    res == Err::<(DebtPosition, PositionEvent), LendingFailure>(
                        LendingFailure::Abort(AbortReason::BelowMinimumBorrow),
                    )
                } else if !in_i128(total) {
                    res == Err::<(DebtPosition, PositionEvent), LendingFailure>(
                        LendingFailure::Error(LendingError::Overflow),
                    )
                } else if total > old(self).debt_ceiling {
                    res == Err::<(DebtPosition, PositionEvent), LendingFailure>(
                        LendingFailure::Error(LendingError::DebtCeilingExceeded),
                    )
                } else if amount <= 0 || d is None || !in_i128(d->Some_0 + amount) {
                    res == Err::<(DebtPosition, PositionEvent), LendingFailure>(
                        LendingFailure::Abort(AbortReason::DebtOperationFailed),
                    )
                } else {
                    &&& res == Ok::<(DebtPosition, PositionEvent), LendingFailure>(
                        (
                            DebtPosition { principal: (d->Some_0 + amount) as i128, last_update: now },
                            position_event(
                                PositionEventKind::Borrow,
                                amount,
                                (d->Some_0 + amount) as i128,
                            ),
                        ),
                    )
                    &&& final(self).total_debt == total
                }
            }),
    {
        if let Err(r) = self.check_emergency_status(ProtocolAction::Borrow) {
            return Err(LendingFailure::Abort(r));
        }
        if amount < self.min_borrow {
            return Err(LendingFailure::Abort(AbortReason::BelowMinimumBorrow));
        }
        let new_total_debt = match self.total_debt.checked_add(amount) {
            Some(t) => t,
            None => return Err(LendingFailure::Error(LendingError::Overflow)),
        };
        if new_total_debt > self.debt_ceiling {
            return Err(LendingFailure::Error(LendingError::DebtCeilingExceeded));
        }
        let updated = match borrow_amount(position, now, amount, DEFAULT_APR_BPS) {
            Ok(p) => p,
            Err(_) => return Err(LendingFailure::Abort(AbortReason::DebtOperationFailed)),
        };
        self.total_debt = new_total_debt;
        Ok((updated, Self::event(PositionEventKind::Borrow, amount, updated.principal)))
    }

    /// Repays `amount` at `now` on `position`; interest accrued so far is
    /// settled before the payment is applied. The protocol's total debt
    /// shrinks by what the payment cleared, never below zero. Returns the
    /// updated position and the event to publish.
    pub fn repay(&mut self, position: DebtPosition, now: u64, amount: i128) -> (res: Result<
        (DebtPosition, PositionEvent),
        LendingFailure,
    >)
        ensures
            res is Err ==> *final(self) == *old(self),
            ({
                let state = old(self).emergency_state;
                let d = debt_at(position, now, DEFAULT_APR_BPS);
                if !action_allowed(state, ProtocolAction::Repay) {
                    res == Err::<(DebtPosition, PositionEvent), LendingFailure>(
                        LendingFailure::Abort(blocked_reason(state)),
                    )
                } else if old(self).flash_active {
                    res == Err::<(DebtPosition, PositionEvent), LendingFailure>(
                        LendingFailure::Abort(AbortReason::FlashLoanReentrancy),
                    )
                } else if amount <= 0 || d is None {
                    res == Err::<(DebtPosition, PositionEvent), LendingFailure>(
                        LendingFailure::Abort(AbortReason::DebtOperationFailed),
                    )
                } else {
                    let remaining = remaining_after_payment(d->Some_0, amount as int);
                    &&& res == Ok::<(DebtPosition, PositionEvent), LendingFailure>(
                        (
                            DebtPosition { principal: remaining as i128, last_update: now },
                            position_event(PositionEventKind::Repay, amount, remaining as i128),
                        ),
                    )
                    &&& *final(self) == (LendingContract {
                        total_debt: lowered_total(
                            old(self).total_debt as int,
                            d->Some_0 - remaining,
                        ) as i128,
                        ..*old(self)
                    })
                }
            }),
    {
        if let Err(r) = self.check_emergency_status(ProtocolAction::Repay) {
            return Err(LendingFailure::Abort(r));
        }
        if self.flash_active {
            return Err(LendingFailure::Abort(AbortReason::FlashLoanReentrancy));
        }
        let updated = match repay_amount(position, now, amount, DEFAULT_APR_BPS) {
            Ok(p) => p,
            Err(_) => return Err(LendingFailure::Abort(AbortReason::DebtOperationFailed)),
        };
        let owed = match effective_debt(&position, now, DEFAULT_APR_BPS) {
            Ok(d) => d,
            Err(_) => return Err(LendingFailure::Abort(AbortReason::DebtOperationFailed)),
        };
        let cleared = owed - updated.principal;
        self.total_debt = lower_total(self.total_debt, cleared);
        Ok((updated, Self::event(PositionEventKind::Repay, amount, updated.principal)))
    }

    /// The event published for a position change.
    fn event(kind: PositionEventKind, amount: i128, new_value: i128) -> (r: PositionEvent)
        ensures
            r == position_event(kind, amount, new_value),
    {
        PositionEvent { schema_version: EVENT_SCHEMA_VERSION, kind, amount, new_value }
    }

    /// Starts a flash loan of `amount` out of a treasury holding
    /// `treasury_balance`, crediting a receiver holding `receiver_balance`.
    /// Marks the loan active so that re-entrant deposits, withdrawals and
    /// repayments abort until `finish_flash_loan`.
    pub fn begin_flash_loan(
        &mut self,
        treasury_balance: i128,
        receiver_balance: i128,
        amount: i128,
    ) -> (res: Result<FlashLoanStart, AbortReason>)
        ensures
            res is Err ==> *final(self) == *old(self),
            res is Ok ==> *final(self) == (LendingContract { flash_active: true, ..*old(self) }),
            ({
                let product = amount * old(self).flash_fee_bps;
                if amount > treasury_balance {
                    res == Err::<FlashLoanStart, AbortReason>(AbortReason::InsufficientLiquidity)
                } else if !in_i128(product) {
                    res == Err::<FlashLoanStart, AbortReason>(AbortReason::FeeOverflow)
                } else if !in_i128(treasury_balance - amount) {
                    res == Err::<FlashLoanStart, AbortReason>(AbortReason::TreasuryUnderflow)
                } else if !in_i128(receiver_balance + amount) {
                    res == Err::<FlashLoanStart, AbortReason>(AbortReason::ReceiverOverflow)
                } else {
                    res == Ok::<FlashLoanStart, AbortReason>(
                        FlashLoanStart {
                            fee: div_toward_zero(product, 10_000) as i128,
                            treasury_balance: (treasury_balance - amount) as i128,
                            receiver_balance: (receiver_balance + amount) as i128,
                        },
                    )
                }
            }),
    {
        if amount > treasury_balance {
            return Err(AbortReason::InsufficientLiquidity);
        }
        let product = match amount.checked_mul(self.flash_fee_bps) {
            Some(p) => p,
            None => return Err(AbortReason::FeeOverflow),
        };
        proof {
            lemma_quotient_fits(product as int, 10_000);
        }
        let fee = match product.checked_div(10_000) {
            Some(f) => f,
            None => 0,
        };
        let new_treasury = match treasury_balance.checked_sub(amount) {
            Some(t) => t,
            None => return Err(AbortReason::TreasuryUnderflow),
        };
        let new_receiver = match receiver_balance.checked_add(amount) {
            Some(r) => r,
            None => return Err(AbortReason::ReceiverOverflow),
        };
        self.flash_active = true;
        Ok(FlashLoanStart { fee, treasury_balance: new_treasury, receiver_balance: new_receiver })
    }

    /// Ends a flash loan: the treasury must hold at least what it held
    /// before the loan plus the fee.
    pub fn finish_flash_loan(&mut self, treasury_before: i128, fee: i128, treasury_after: i128) -> (res:
        Result<(), AbortReason>)
        ensures
            *final(self) == (LendingContract { flash_active: false, ..*old(self) }),
            !in_i128(treasury_before + fee) ==> res == Err::<(), AbortReason>(
                AbortReason::RequiredBalanceOverflow,
            ),
            in_i128(treasury_before + fee) ==> (res is Ok <==> treasury_after >= treasury_before
                + fee),
            in_i128(treasury_before + fee) && res is Err ==> res == Err::<(), AbortReason>(
                AbortReason::InsufficientRepayment,
            ),
    {
        self.flash_active = false;
        let required = match treasury_before.checked_add(fee) {
            Some(r) => r,
            None => return Err(AbortReason::RequiredBalanceOverflow),
        };
        if treasury_after < required {
            return Err(AbortReason::InsufficientRepayment);
        }
        Ok(())
    }
}

/// `a / b` toward zero for a positive divisor never leaves the `i128` range.
proof fn lemma_quotient_fits(a: int, b: int)
    requires
        in_i128(a),
        b >= 1,
    ensures
        in_i128(div_toward_zero(a, b)),
{
    if a >= 0 {
        assert(0 <= a / b <= a) by (nonlinear_arith)
            requires
                a >= 0,
                b >= 1,
        ;
    } else {
        let m = -a;
        assert(0 <= m / b <= m) by (nonlinear_arith)
            requires
                m >= 0,
                b >= 1,
        ;
    }
}

/// Division rounded toward zero for any non-zero divisor.
pub open spec fn quotient_toward_zero(a: int, b: int) -> int {
    if b > 0 {
        div_toward_zero(a, b)
    } else {
        -div_toward_zero(a, -b)
    }
}

pub open spec fn min_of(a: int, b: int) -> int {
    if a <= b {
        a
    } else {
        b
    }
}

/// What one liquidation repays: the requested amount, at most half of the
/// debt.
pub open spec fn liquidation_repaid(debt: int, amount: int) -> int {
    min_of(amount, max_repay(debt))
}

/// The collateral one liquidation seizes: the repayment plus a ten percent
/// bonus (toward zero), at most the whole collateral.
pub open spec fn liquidation_seized(collateral: int, debt: int, amount: int) -> int {
    min_of(
        quotient_toward_zero(
            liquidation_repaid(debt, amount) * (10_000 + LIQUIDATION_INCENTIVE_BPS),
            10_000,
        ),
        collateral,
    )
}

/// The health factor `collateral * 8000 / debt` (toward zero).
pub open spec fn liquidation_health(collateral: int, debt: int) -> int {
    quotient_toward_zero(collateral * LIQUIDATION_THRESHOLD_BPS, debt)
}

/// The most one liquidation may repay: half of the debt (toward zero).
pub open spec fn max_repay(debt: int) -> int {
    quotient_toward_zero(debt * CLOSE_FACTOR_BPS, 10_000)
}

fn quotient_exec(a: i128, b: i128) -> (r: i128)
    requires
        b != 0,
        a != i128::MIN,
    ensures
        r == quotient_toward_zero(a as int, b as int),
{
    proof {
        if b > 0 {
            lemma_quotient_fits(a as int, b as int);
        } else {
            lemma_quotient_fits(a as int, -b);
            assert(-a <= i128::MAX);
        }
    }
    match a.checked_div(b) {
        Some(v) => v,
        None => 0,
    }
}

impl LendingContract {
    /// Moves `amount` from a payer's flash-loan balance back to the treasury;
    /// returns the new payer and treasury balances.
    pub fn repay_flash_loan(payer_balance: i128, treasury_balance: i128, amount: i128) -> (res: Result<
        (i128, i128),
        AbortReason,
    >)
        ensures
            payer_balance < amount ==> res == Err::<(i128, i128), AbortReason>(
                AbortReason::InsufficientBalance,
            ),
            payer_balance >= amount && !in_i128(payer_balance - amount) ==> res == Err::<
                (i128, i128),
                AbortReason,
            >(AbortReason::PayerUnderflow),
            payer_balance >= amount && in_i128(payer_balance - amount) && !in_i128(
                treasury_balance + amount,
            ) ==> res == Err::<(i128, i128), AbortReason>(AbortReason::TreasuryOverflow),
            payer_balance >= amount && in_i128(payer_balance - amount) && in_i128(
                treasury_balance + amount,
            ) ==> res == Ok::<(i128, i128), AbortReason>(
                ((payer_balance - amount) as i128, (treasury_balance + amount) as i128),
            ),
    {
        if payer_balance < amount {
            return Err(AbortReason::InsufficientBalance);
        }
        let new_payer = match payer_balance.checked_sub(amount) {
            Some(v) => v,
            None => return Err(AbortReason::PayerUnderflow),
        };
        let new_treasury = match treasury_balance.checked_add(amount) {
            Some(v) => v,
            None => return Err(AbortReason::TreasuryOverflow),
        };
        Ok((new_payer, new_treasury))
    }

    /// Liquidates up to `amount` of a borrower's `debt`, seizing collateral
    /// with a ten percent bonus (capped at the collateral). A position without
    /// debt, or with a health factor of at least 10 000, is healthy.
    pub fn liquidate(&mut self, collateral: i128, debt: i128, amount: i128) -> (res: Result<
        LiquidationOutcome,
        LendingError,
    >)
        requires
            debt != 0 ==> in_i128(collateral * LIQUIDATION_THRESHOLD_BPS),
            debt != 0 && liquidation_health(collateral as int, debt as int) < 10_000 ==> {
                let repaid = liquidation_repaid(debt as int, amount as int);
                &&& in_i128(debt * CLOSE_FACTOR_BPS)
                &&& in_i128(repaid * (10_000 + LIQUIDATION_INCENTIVE_BPS))
                &&& in_i128(debt - repaid)
                &&& in_i128(
                    collateral - liquidation_seized(collateral as int, debt as int, amount as int),
                )
            },
        ensures
            res is Err ==> *final(self) == *old(self),
            debt == 0 ==> res == Err::<LiquidationOutcome, LendingError>(
                LendingError::PositionHealthy,
            ),
            debt != 0 && liquidation_health(collateral as int, debt as int) >= 10_000 ==> res == Err::<
                LiquidationOutcome,
                LendingError,
            >(LendingError::PositionHealthy),
            debt != 0 && liquidation_health(collateral as int, debt as int) < 10_000 ==> ({
                let repaid = liquidation_repaid(debt as int, amount as int);
                let seized = liquidation_seized(collateral as int, debt as int, amount as int);
                &&& res == Ok::<LiquidationOutcome, LendingError>(
                    LiquidationOutcome {
                        repaid: repaid as i128,
                        new_debt: (debt - repaid) as i128,
                        new_collateral: (collateral - seized) as i128,
                    },
                )
                &&& 0 <= old(self).total_deposits - seized <= i128::MAX ==> final(self).total_deposits
                    - old(self).total_deposits == res->Ok_0.new_collateral - collateral
                &&& *final(self) == (LendingContract {
                    total_debt: lowered_total(old(self).total_debt as int, repaid) as i128,
                    total_deposits: lowered_total(old(self).total_deposits as int, seized) as i128,
                    ..*old(self)
                })
            }),
    {
        if debt == 0 {
            return Err(LendingError::PositionHealthy);
        }
        let weighted = collateral * LIQUIDATION_THRESHOLD_BPS;
        assert(weighted != i128::MIN) by {
            assert(collateral * 8000 != -170141183460469231731687303715884105728int);
        }
        let hf = quotient_exec(weighted, debt);
        if hf >= 10_000 {
            return Err(LendingError::PositionHealthy);
        }
        let scaled_debt = debt * CLOSE_FACTOR_BPS;
        assert(scaled_debt != i128::MIN) by {
            assert(debt * 5000 != -170141183460469231731687303715884105728int);
        }
        let max = quotient_exec(scaled_debt, 10_000);
        let actual_repay = if amount <= max {
            amount
        } else {
            max
        };
        let bonus = actual_repay * (10_000 + LIQUIDATION_INCENTIVE_BPS);
        assert(bonus != i128::MIN) by {
            assert(actual_repay * 11000 != -170141183460469231731687303715884105728int);
        }
        let seized = quotient_exec(bonus, 10_000);
        let final_seized = if seized <= collateral {
            seized
        } else {
            collateral
        };
        self.total_debt = lower_total(self.total_debt, actual_repay);
        self.total_deposits = lower_total(self.total_deposits, final_seized);
        Ok(
            LiquidationOutcome {
                repaid: actual_repay,
                new_debt: debt - actual_repay,
                new_collateral: collateral - final_seized,
            },
        )
    }

    /// A user's position at `now`: the collateral, the debt with interest
    /// accrued so far (the recorded principal if that cannot be computed), and
    /// the health factor `collateral * 8000 / debt` (`i128::MAX` if that
    /// product overflows, `1_000_000` without debt).
    pub fn get_position(collateral: i128, position: &DebtPosition, now: u64) -> (r:
        PositionSummary)
        ensures
            r.collateral == collateral,
            r.debt == (match debt_at(*position, now, DEFAULT_APR_BPS) {
                Some(d) => d,
                None => position.principal as int,
            }),
            r.health_factor == (if r.debt > 0 {
                if in_i128(collateral * LIQUIDATION_THRESHOLD_BPS) {
                    quotient_toward_zero(collateral * LIQUIDATION_THRESHOLD_BPS, r.debt as int)
                } else {
                    i128::MAX as int
                }
            } else {
                HEALTH_FACTOR_NO_DEBT as int
            }),
    {
        let debt = match effective_debt(position, now, DEFAULT_APR_BPS) {
            Ok(d) => d,
            Err(_) => position.principal,
        };
        let health_factor = if debt > 0 {
            match collateral.checked_mul(LIQUIDATION_THRESHOLD_BPS) {
                Some(v) => {
                    assert(v != i128::MIN) by {
                        assert(collateral * 8000 != -170141183460469231731687303715884105728int);
                    }
                    quotient_exec(v, debt)
                },
                None => i128::MAX,
            }
        } else {
            HEALTH_FACTOR_NO_DEBT
        };
        PositionSummary { collateral, debt, health_factor }
    }
}

/// The circuit breaker: shutdown blocks every action, recovery lets only
/// repayments and withdrawals through, normal operation blocks nothing.
pub proof fn law_circuit_breaker(action: ProtocolAction)
    ensures
        !action_allowed(EmergencyState::Shutdown, action),
        action_allowed(EmergencyState::Recovery, action) <==> (action == ProtocolAction::Repay
            || action == ProtocolAction::Withdraw),
        action_allowed(EmergencyState::Normal, action),
{
}

/// A liquidation never repays more than half of a positive debt, never
/// seizes more collateral than there is, and seizes nothing from a position
/// without collateral.
pub proof fn law_liquidation_bounds(collateral: int, debt: int, amount: int)
    requires
        debt > 0,
        collateral >= 0,
        amount >= 0,
    ensures
        min_of(amount, max_repay(debt)) <= debt / 2,
        min_of(
            quotient_toward_zero(min_of(amount, max_repay(debt)) * 11_000, 10_000),
            collateral,
        ) <= collateral,
{
    assert((debt * 5000) / 10000 == debt / 2) by (nonlinear_arith)
        requires
            debt > 0,
    ;
}

/// The sum of a list of balances.
pub open spec fn sum_of(s: Seq<int>) -> int
    decreases s.len(),
{
    if s.len() == 0 {
        0
    } else {
        sum_of(s.drop_last()) + s.last()
    }
}

proof fn lemma_sum_of_update(s: Seq<int>, i: int, x: int)
    requires
        0 <= i < s.len(),
    ensures
        sum_of(s.update(i, x)) == sum_of(s) - s[i] + x,
    decreases s.len(),
{
    let t = s.update(i, x);
    if i == s.len() - 1 {
        assert(t.drop_last() =~= s.drop_last());
    } else {
        lemma_sum_of_update(s.drop_last(), i, x);
        assert(t.drop_last() =~= s.drop_last().update(i, x));
    }
}

/// The protocol's total deposits stay the sum of all users' collateral:
/// when they equal it before, an operation that moves the total by exactly
/// the change in one user's collateral keeps them equal. Deposit, withdraw
/// and (without clamping) liquidate state that change in their `ensures`.
pub proof fn law_deposits_track_collateral(
    collaterals: Seq<int>,
    user: int,
    new_collateral: int,
    total_before: int,
    total_after: int,
)
    requires
        0 <= user < collaterals.len(),
        total_before == sum_of(collaterals),
        total_after - total_before == new_collateral - collaterals[user],
    ensures
        total_after == sum_of(collaterals.update(user, new_collateral)),
{
    lemma_sum_of_update(collaterals, user, new_collateral);
}

} // verus!
