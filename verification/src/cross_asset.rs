//! Borrow isolation across assets: each user holds a list of the distinct
//! assets they owe, and an admin may cap how many distinct assets that is.
//!
//! An asset is `None` for the native asset or the identity of a token.
use vstd::prelude::*;
use crate::account::AccountId;

verus! {

/// Why a cross-asset operation was refused.
#[derive(Clone, Copy, Debug, PartialEq, Eq, Structural)]
pub enum CrossAssetError {
    /// The caller is not the admin.
    Unauthorized,
    /// A configured cap must be at least one.
    InvalidMaxDebtAssets,
    /// The user already owes the maximum number of distinct assets.
    DebtAssetLimitExceeded,
    /// An arithmetic overflow.
    Overflow,
}

impl CrossAssetError {
    /// The stable numeric code of the error.
    pub fn code(&self) -> (r: u32)
        ensures
            r == match *self {
                CrossAssetError::Unauthorized => 1u32,
                CrossAssetError::InvalidMaxDebtAssets => 2u32,
                CrossAssetError::DebtAssetLimitExceeded => 3u32,
                CrossAssetError::Overflow => 4u32,
            },
    {
        match self {
            CrossAssetError::Unauthorized => 1,
            CrossAssetError::InvalidMaxDebtAssets => 2,
            CrossAssetError::DebtAssetLimitExceeded => 3,
            CrossAssetError::Overflow => 4,
        }
    }
}

/// The identity of an asset: `None` for the native asset.
pub open spec fn asset_view(asset: Option<AccountId>) -> Option<Seq<u8>> {
    match asset {
        Some(a) => Some(a@),
        None => None,
    }
}

/// The identities of a list of assets.
pub open spec fn asset_list_view(assets: Seq<Option<AccountId>>) -> Seq<Option<Seq<u8>>> {
    assets.map_values(|a: Option<AccountId>| asset_view(a))
}

/// No asset occurs twice in `s`.
pub open spec fn no_duplicates(s: Seq<Option<Seq<u8>>>) -> bool {
    forall|i: int, j: int| 0 <= i < j < s.len() ==> s[i] != s[j]
}

/// Whether two assets are the same.
fn same_asset(a: &Option<AccountId>, b: &Option<AccountId>) -> (r: bool)
    ensures
        r == (asset_view(*a) == asset_view(*b)),
{
    match (a, b) {
        (Some(x), Some(y)) => x.same_as(y),
        (None, None) => true,
        _ => false,
    }
}

/// A copy of an asset identity.
fn duplicate_asset(a: &Option<AccountId>) -> (r: Option<AccountId>)
    ensures
        asset_view(r) == asset_view(*a),
{
    match a {
        Some(x) => Some(x.duplicate()),
        None => None,
    }
}

/// The outcome of recording `asset` against a list `before`: the result
/// returned and the list afterwards.
pub open spec fn record_debt_asset(
    before: Seq<Option<Seq<u8>>>,
    cap: Option<u32>,
    asset: Option<Seq<u8>>,
) -> (Result<u32, CrossAssetError>, Seq<Option<Seq<u8>>>) {
    if before.contains(asset) {
        (Ok(before.len() as u32), before)
    } else if cap is Some && before.len() >= cap->Some_0 {
        (Err(CrossAssetError::DebtAssetLimitExceeded), before)
    } else {
        (Ok((before.len() + 1) as u32), before.push(asset))
    }
}

/// Records that a user owes `asset`: an asset already in the list changes
/// nothing and needs no room; a new one is appended if the cap (if any)
/// leaves room. Returns the number of distinct assets the user owes.
pub fn add_to_user_debt_list(
    debt_assets: &mut Vec<Option<AccountId>>,
    cap: Option<u32>,
    asset: &Option<AccountId>,
) -> (res: Result<u32, CrossAssetError>)
    requires
        old(debt_assets).len() < u32::MAX,
    ensures
        (res, asset_list_view(final(debt_assets)@)) == record_debt_asset(
            asset_list_view(old(debt_assets)@),
            cap,
            asset_view(*asset),
        ),
        res is Ok ==> asset_list_view(final(debt_assets)@).contains(asset_view(*asset)),
        no_duplicates(asset_list_view(old(debt_assets)@)) ==> no_duplicates(
            asset_list_view(final(debt_assets)@),
        ),
        cap is Some && old(debt_assets).len() <= cap->Some_0 ==> final(debt_assets).len()
            <= cap->Some_0,
{
    let ghost before = asset_list_view(debt_assets@);
    let n = debt_assets.len();
    let mut i: usize = 0;
    while i < n
        invariant
            n == debt_assets.len(),
            before == asset_list_view(debt_assets@),
            0 <= i <= n,
            forall|j: int| 0 <= j < i ==> before[j] != asset_view(*asset),
        decreases n - i,
    {
        if same_asset(&debt_assets[i], asset) {
            assert(before[i as int] == asset_view(*asset));
            return Ok(n as u32);
        }
        i = i + 1;
    }
    assert(!before.contains(asset_view(*asset)));
    if let Some(c) = cap {
        if n as u64 >= c as u64 {
            return Err(CrossAssetError::DebtAssetLimitExceeded);
        }
    }
    debt_assets.push(duplicate_asset(asset));
    proof {
        let after = asset_list_view(debt_assets@);
        assert(after =~= before.push(asset_view(*asset)));
        assert(after[n as int] == asset_view(*asset));
    }
    Ok((n + 1) as u32)
}

/// Whether `caller` is the stored admin.
fn require_admin(admin: &Option<AccountId>, caller: &AccountId) -> (res: Result<
    (),
    CrossAssetError,
>)
    ensures
        res is Ok <==> (admin is Some && admin->Some_0@ == caller@),
        res is Err ==> res == Err::<(), CrossAssetError>(CrossAssetError::Unauthorized),
{
    match admin {
        Some(a) => if a.same_as(caller) {
            Ok(())
        } else {
            Err(CrossAssetError::Unauthorized)
        },
        None => Err(CrossAssetError::Unauthorized),
    }
}

/// Sets (`Some`) or removes (`None`) the cap on distinct debt assets per
/// user. Only the admin may do so, and a cap must be at least one.
pub fn set_max_debt_assets_per_user(
    admin: &Option<AccountId>,
    caller: &AccountId,
    cap: &mut Option<u32>,
    max: Option<u32>,
) -> (res: Result<(), CrossAssetError>)
    ensures
        !(admin is Some && admin->Some_0@ == caller@) ==> res == Err::<(), CrossAssetError>(
            CrossAssetError::Unauthorized,
        ),
        admin is Some && admin->Some_0@ == caller@ && max == Some(0u32) ==> res == Err::<
            (),
            CrossAssetError,
        >(CrossAssetError::InvalidMaxDebtAssets),
        admin is Some && admin->Some_0@ == caller@ && max != Some(0u32) ==> res is Ok,
        res is Ok ==> *final(cap) == max,
        res is Err ==> *final(cap) == *old(cap),
{
    require_admin(admin, caller)?;
    if let Some(v) = max {
        if v < 1 {
            return Err(CrossAssetError::InvalidMaxDebtAssets);
        }
    }
    *cap = max;
    Ok(())
}

/// Recording the same asset twice has the effect of recording it once: the
/// second call returns the same count and leaves the list as it was.
pub proof fn law_record_twice_is_record_once(
    before: Seq<Option<Seq<u8>>>,
    cap: Option<u32>,
    asset: Option<Seq<u8>>,
)
    requires
        before.len() < u32::MAX,
    ensures
        ({
            let (first, once) = record_debt_asset(before, cap, asset);
            let (second, twice) = record_debt_asset(once, cap, asset);
            first is Ok ==> second == first && twice == once
        }),
{
    let (first, once) = record_debt_asset(before, cap, asset);
    if first is Ok && !before.contains(asset) {
        assert(once[before.len() as int] == asset);
        assert(once.contains(asset));
    }
}

} // verus!
