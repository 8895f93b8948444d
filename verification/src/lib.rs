//! Verified core of a lending protocol: interest accrual and rounding, debt
//! positions, a utilisation-driven rate model, a constant-product pool, an
//! inbound rate-limited bridge, vesting grants, a multisig proposal machine,
//! cross-asset debt tracking and governance payload binding.
use vstd::prelude::*;

pub mod rounding;
pub mod debt;
pub mod rate_model;
pub mod account;
pub mod bridge;
pub mod amm;
pub mod vesting;
pub mod multisig;
pub mod lending;
pub mod cross_asset;
pub mod governance;

verus! {
} // verus!
