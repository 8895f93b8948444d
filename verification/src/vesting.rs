//! Vesting grants with a cliff, linear release and pause-adjusted time.
//!
//! A grant vests nothing before `start_ts + cliff_secs`, everything once
//! `duration_secs` have elapsed since `start_ts`, and linearly in between.
//! While the contract is paused nothing can be claimed or revoked, and the
//! paused interval is later subtracted from the clock used for vesting.
use vstd::prelude::*;
use crate::account::AccountId;

verus! {

/// Why a vesting operation was refused.
#[derive(Clone, Copy, Debug, PartialEq, Eq, Structural)]
pub enum VestingError {
    Unauthorized,
    ContractPaused,
    GrantNotFound,
    NothingToClaim,
    AlreadyRevoked,
    Overflow,
    NotPaused,
    InvalidGrant,
    NoSuchGrant,
}

impl VestingError {
    /// The stable numeric code of the error.
    pub fn code(&self) -> (r: u32)
        ensures
            r == match *self {
                VestingError::Unauthorized => 1u32,
                VestingError::ContractPaused => 2u32,
                VestingError::GrantNotFound => 3u32,
                VestingError::NothingToClaim => 4u32,
                VestingError::AlreadyRevoked => 5u32,
                VestingError::Overflow => 6u32,
                VestingError::NotPaused => 7u32,
                VestingError::InvalidGrant => 8u32,
                VestingError::NoSuchGrant => 9u32,
            },
    {
        match self {
            VestingError::Unauthorized => 1,
            VestingError::ContractPaused => 2,
            VestingError::GrantNotFound => 3,
            VestingError::NothingToClaim => 4,
            VestingError::AlreadyRevoked => 5,
            VestingError::Overflow => 6,
            VestingError::NotPaused => 7,
            VestingError::InvalidGrant => 8,
            VestingError::NoSuchGrant => 9,
        }
    }
}

/// A vesting grant for one beneficiary.
#[derive(Clone, Debug)]
pub struct Grant {
    pub grantee: AccountId,
    pub total_amount: i128,
    pub claimed_amount: i128,
    pub start_ts: u64,
    pub cliff_secs: u64,
    pub duration_secs: u64,
    pub revoked: bool,
}

pub open spec fn sat_add_u64(a: u64, b: u64) -> int {
    if a + b > u64::MAX {
        u64::MAX as int
    } else {
        a + b
    }
}

pub open spec fn sat_sub_u64(a: u64, b: u64) -> int {
    if a >= b {
        a - b
    } else {
        0
    }
}

/// `a - b` clamped to the `i128` range.
pub open spec fn sat_sub_i128(a: int, b: int) -> int {
    if a - b > i128::MAX {
        i128::MAX as int
    } else if a - b < i128::MIN {
        i128::MIN as int
    } else {
        a - b
    }
}

/// Tokens of `g` vested at the (pause-adjusted) time `t`. A revoked grant is
/// frozen at what it had claimed. The linear part is computed on the total
/// taken as a `u64`, and falls back to the total if that product overflows.
pub open spec fn vested_amount(g: Grant, t: u64) -> int {
    if g.revoked {
        g.claimed_amount as int
    } else if t < sat_add_u64(g.start_ts, g.cliff_secs) {
        0
    } else {
        let elapsed = sat_sub_u64(t, g.start_ts);
        if elapsed >= g.duration_secs {
            g.total_amount as int
        } else {
            let base = (g.total_amount as u64) as int;
            if base * elapsed <= u64::MAX {
                (base * elapsed) / (g.duration_secs as int)
            } else {
                g.total_amount as int
            }
        }
    }
}

/// Tokens of `g` claimable at `t`: vested minus already claimed.
pub open spec fn claimable_amount(g: Grant, t: u64) -> int {
    sat_sub_i128(vested_amount(g, t), g.claimed_amount as int)
}

fn sat_sub_i128_exec(a: i128, b: i128) -> (r: i128)
    ensures
        r == sat_sub_i128(a as int, b as int),
{
    match a.checked_sub(b) {
        Some(v) => v,
        None => if b < 0 {
            i128::MAX
        } else {
            i128::MIN
        },
    }
}

impl Grant {
    /// Tokens vested at `effective_now` (a timestamp already adjusted for
    /// paused intervals), capped at the total.
    pub fn vested_at(&self, effective_now: u64) -> (r: i128)
        ensures
            r == vested_amount(*self, effective_now),
    {
        if self.revoked {
            return self.claimed_amount;
        }
        if effective_now < self.start_ts.saturating_add(self.cliff_secs) {
            return 0;
        }
        let elapsed = effective_now.saturating_sub(self.start_ts);
        if elapsed >= self.duration_secs {
            return self.total_amount;
        }
        #[verifier::truncate]
        let base: u64 = self.total_amount as u64;
        match base.checked_mul(elapsed) {
            Some(v) => {
                let q = v / self.duration_secs;
                q as i128
            },
            None => self.total_amount,
        }
    }

    /// Tokens claimable at `effective_now`: vested minus claimed.
    pub fn claimable_at(&self, effective_now: u64) -> (r: i128)
        ensures
            r == claimable_amount(*self, effective_now),
    {
        sat_sub_i128_exec(self.vested_at(effective_now), self.claimed_amount)
    }
}

/// The vesting contract's own state: its admin and the pause clock.
#[derive(Clone, Debug)]
pub struct VestingContract {
    pub admin: Option<AccountId>,
    pub paused: bool,
    pub paused_at: u64,
    pub total_paused_secs: u64,
}

/// Whether `caller` is the configured admin.
pub open spec fn is_admin(admin: Option<AccountId>, caller: AccountId) -> bool {
    match admin {
        Some(a) => a@ == caller@,
        None => false,
    }
}

impl VestingContract {
    /// A contract administered by `admin`, not paused, with no paused time.
    pub fn initialize(admin: AccountId) -> (r: VestingContract)
        ensures
            r.admin matches Some(a) && a@ == admin@,
            !r.paused,
            r.paused_at == 0,
            r.total_paused_secs == 0,
    {
        VestingContract { admin: Some(admin), paused: false, paused_at: 0, total_paused_secs: 0 }
    }

    fn require_admin(&self, caller: &AccountId) -> (res: Result<(), VestingError>)
        ensures
            res is Ok <==> is_admin(self.admin, *caller),
            res is Err ==> res == Err::<(), VestingError>(VestingError::Unauthorized),
    {
        match &self.admin {
            Some(a) => if a.same_as(caller) {
                Ok(())
            } else {
                Err(VestingError::Unauthorized)
            },
            None => Err(VestingError::Unauthorized),
        }
    }

    /// The seconds the contract has spent paused, over all completed pauses.
    pub fn total_paused_secs(&self) -> (r: u64)
        ensures
            r == self.total_paused_secs,
    {
        self.total_paused_secs
    }

    /// Whether the contract is paused.
    pub fn is_paused(&self) -> (r: bool)
        ensures
            r == self.paused,
    {
        self.paused
    }

    /// The clock used for vesting: `now` minus all paused seconds.
    pub fn effective_now(&self, now: u64) -> (r: u64)
        ensures
            r == sat_sub_u64(now, self.total_paused_secs),
    {
        now.saturating_sub(self.total_paused_secs)
    }

    /// A new grant of `total_amount` for `grantee` (admin only); the total
    /// must be positive and the duration non-zero. The grant replaces any
    /// earlier grant of the grantee.
    pub fn create_grant(
        &self,
        caller: &AccountId,
        grantee: AccountId,
        total_amount: i128,
        start_ts: u64,
        cliff_secs: u64,
        duration_secs: u64,
    ) -> (res: Result<Grant, VestingError>)
        ensures
            !is_admin(self.admin, *caller) ==> res == Err::<Grant, VestingError>(
                VestingError::Unauthorized,
            ),
            is_admin(self.admin, *caller) && (total_amount <= 0 || duration_secs == 0) ==> res
                == Err::<Grant, VestingError>(VestingError::InvalidGrant),
            is_admin(self.admin, *caller) && total_amount > 0 && duration_secs != 0 ==> res is Ok
                && ({
                let g = res->Ok_0;
                &&& g.grantee@ == grantee@
                &&& g.total_amount == total_amount
                &&& g.claimed_amount == 0
                &&& g.start_ts == start_ts
                &&& g.cliff_secs == cliff_secs
                &&& g.duration_secs == duration_secs
                &&& !g.revoked
            }),
    {
        self.require_admin(caller)?;
        if total_amount <= 0 || duration_secs == 0 {
            return Err(VestingError::InvalidGrant);
        }
        Ok(
            Grant {
                grantee,
                total_amount,
                claimed_amount: 0,
                start_ts,
                cliff_secs,
                duration_secs,
                revoked: false,
            },
        )
    }

    /// Pauses the contract at `now` (admin only); pausing again is a no-op.
    pub fn pause(&mut self, caller: &AccountId, now: u64) -> (res: Result<(), VestingError>)
        ensures
            final(self).admin == old(self).admin,
            final(self).total_paused_secs == old(self).total_paused_secs,
            !is_admin(old(self).admin, *caller) ==> {
                &&& res == Err::<(), VestingError>(VestingError::Unauthorized)
                &&& final(self).paused == old(self).paused
                &&& final(self).paused_at == old(self).paused_at
            },
            is_admin(old(self).admin, *caller) ==> {
                &&& res is Ok
                &&& final(self).paused
                &&& final(self).paused_at == (if old(self).paused {
                    old(self).paused_at
                } else {
                    now
                })
            },
    {
        self.require_admin(caller)?;
        if self.paused {
            return Ok(());
        }
        self.paused = true;
        self.paused_at = now;
        Ok(())
    }

    /// Resumes a paused contract at `now` (admin only), adding the paused
    /// interval to the paused total (saturating at `u64::MAX`).
    pub fn resume(&mut self, caller: &AccountId, now: u64) -> (res: Result<(), VestingError>)
        ensures
            final(self).admin == old(self).admin,
            (!is_admin(old(self).admin, *caller) || !old(self).paused) ==> {
                &&& final(self).paused == old(self).paused
                &&& final(self).paused_at == old(self).paused_at
                &&& final(self).total_paused_secs == old(self).total_paused_secs
            },
            !is_admin(old(self).admin, *caller) ==> res == Err::<(), VestingError>(
                VestingError::Unauthorized,
            ),
            is_admin(old(self).admin, *caller) && !old(self).paused ==> res == Err::<
                (),
                VestingError,
            >(VestingError::NotPaused),
            is_admin(old(self).admin, *caller) && old(self).paused ==> {
                &&& res is Ok
                &&& !final(self).paused
                &&& final(self).paused_at == 0
                &&& final(self).total_paused_secs == sat_add_u64(
                    old(self).total_paused_secs,
                    sat_sub_u64(now, old(self).paused_at) as u64,
                )
            },
    {
        self.require_admin(caller)?;
        if !self.paused {
            return Err(VestingError::NotPaused);
        }
        let interval = now.saturating_sub(self.paused_at);
        let new_total = match self.total_paused_secs.checked_add(interval) {
            Some(t) => t,
            None => u64::MAX,
        };
        self.total_paused_secs = new_total;
        self.paused = false;
        self.paused_at = 0;
        Ok(())
    }

    /// Claims everything vested and not yet claimed from `grant` at `now`;
    /// returns the updated grant and the amount claimed.
    pub fn claim(&self, grant: Option<Grant>, now: u64) -> (res: Result<(Grant, i128), VestingError>)
        ensures
            self.paused ==> res == Err::<(Grant, i128), VestingError>(VestingError::ContractPaused),
            !self.paused && grant is None ==> res == Err::<(Grant, i128), VestingError>(
                VestingError::GrantNotFound,
            ),
            !self.paused && grant is Some ==> ({
                let g = grant->Some_0;
                let t = sat_sub_u64(now, self.total_paused_secs) as u64;
                let c = claimable_amount(g, t);
                if g.revoked {
                    res == Err::<(Grant, i128), VestingError>(VestingError::AlreadyRevoked)
                } else if c <= 0 {
                    res == Err::<(Grant, i128), VestingError>(VestingError::NothingToClaim)
                } else if g.claimed_amount + c > i128::MAX {
                    res == Err::<(Grant, i128), VestingError>(VestingError::Overflow)
                } else {
                    &&& res is Ok
                    &&& res->Ok_0.1 == c
                    &&& res->Ok_0.0 == (Grant { claimed_amount: (g.claimed_amount + c) as i128, ..g })
                }
            }),
    {
        if self.paused {
            return Err(VestingError::ContractPaused);
        }
        let mut g = match grant {
            Some(g) => g,
            None => return Err(VestingError::GrantNotFound),
        };
        if g.revoked {
            return Err(VestingError::AlreadyRevoked);
        }
        let t = self.effective_now(now);
        let claimable = g.claimable_at(t);
        if claimable <= 0 {
            return Err(VestingError::NothingToClaim);
        }
        g.claimed_amount = match g.claimed_amount.checked_add(claimable) {
            Some(v) => v,
            None => return Err(VestingError::Overflow),
        };
        Ok((g, claimable))
    }

    /// Revokes `grant` at `now` (admin only): the grantee keeps what has
    /// vested, the rest is clawed back. Returns the frozen grant and
    /// `(vested, clawback)`.
    pub fn revoke(&self, caller: &AccountId, grant: Option<Grant>, now: u64) -> (res: Result<
        (Grant, (i128, i128)),
        VestingError,
    >)
        ensures
            !is_admin(self.admin, *caller) ==> res == Err::<(Grant, (i128, i128)), VestingError>(
                VestingError::Unauthorized,
            ),
            is_admin(self.admin, *caller) && self.paused ==> res == Err::<
                (Grant, (i128, i128)),
                VestingError,
            >(VestingError::ContractPaused),
            is_admin(self.admin, *caller) && !self.paused && grant is None ==> res == Err::<
                (Grant, (i128, i128)),
                VestingError,
            >(VestingError::GrantNotFound),
            is_admin(self.admin, *caller) && !self.paused && grant is Some ==> ({
                let g = grant->Some_0;
                let t = sat_sub_u64(now, self.total_paused_secs) as u64;
                let v = vested_amount(g, t);
                if g.revoked {
                    res == Err::<(Grant, (i128, i128)), VestingError>(VestingError::AlreadyRevoked)
                } else {
                    &&& res is Ok
                    &&& res->Ok_0.1.0 == v
                    &&& res->Ok_0.1.1 == sat_sub_i128(g.total_amount as int, v)
                    &&& res->Ok_0.0 == (Grant { revoked: true, claimed_amount: v as i128, ..g })
                }
            }),
    {
        self.require_admin(caller)?;
        if self.paused {
            return Err(VestingError::ContractPaused);
        }
        let mut g = match grant {
            Some(g) => g,
            None => return Err(VestingError::GrantNotFound),
        };
        if g.revoked {
            return Err(VestingError::AlreadyRevoked);
        }
        let t = self.effective_now(now);
        let vested = g.vested_at(t);
        let clawback = sat_sub_i128_exec(g.total_amount, vested);
        g.revoked = true;
        g.claimed_amount = vested;
        Ok((g, (vested, clawback)))
    }

    /// Merges the grantee's active grants into one (admin only): each active
    /// grant is revoked and what it had left (`total - claimed`, at least
    /// zero) is summed in `u128`, saturating; a fresh grant of that sum
    /// starts at `now` over `merge_duration` seconds with no cliff. Returns
    /// the merged total. The new grant's `i128` total holds the sum, or
    /// `i128::MAX` where the sum exceeds it.
    /// Without an entry for the grantee, or when nothing is left to merge,
    /// the result is `NoSuchGrant`; in the latter case the active grants have
    /// nevertheless been marked revoked.
    pub fn merge_grants(
        &self,
        caller: &AccountId,
        grantee: &AccountId,
        grants: &mut Option<Vec<Grant>>,
        now: u64,
        merge_duration: u64,
    ) -> (res: Result<u128, VestingError>)
        ensures
            !is_admin(self.admin, *caller) ==> res == Err::<u128, VestingError>(
                VestingError::Unauthorized,
            ) && *final(grants) == *old(grants),
            is_admin(self.admin, *caller) && *old(grants) is None ==> res == Err::<u128, VestingError>(
                VestingError::NoSuchGrant,
            ) && *final(grants) is None,
            is_admin(self.admin, *caller) && *old(grants) is Some ==> ({
                let list = (*old(grants))->Some_0;
                let total = merged_remaining(list@);
                &&& *final(grants) is Some
                &&& all_revoked_prefix(list@, (*final(grants))->Some_0@)
                &&& (total == 0 ==> res == Err::<u128, VestingError>(VestingError::NoSuchGrant)
                    && (*final(grants))->Some_0@.len() == list@.len())
                &&& (total != 0 ==> res == Ok::<u128, VestingError>(total as u128) && {
                    let out = (*final(grants))->Some_0@;
                    let m = out[list@.len() as int];
                    &&& out.len() == list@.len() + 1
                    &&& m.grantee@ == grantee@
                    &&& m.total_amount == (if total > i128::MAX { i128::MAX as int } else { total })
                    &&& m.claimed_amount == 0
                    &&& m.start_ts == now
                    &&& m.duration_secs == merge_duration
                    &&& m.cliff_secs == 0
                    &&& !m.revoked
                })
            }),
    {
        if let Err(e) = self.require_admin(caller) {
            return Err(e);
        }
        let taken = grants.take();
        let mut list = match taken {
            Some(l) => l,
            None => return Err(VestingError::NoSuchGrant),
        };
        let ghost initial = list@;
        let n = list.len();
        let mut merged_total: u128 = 0;
        let mut i: usize = 0;
        while i < n
            invariant
                n == list.len(),
                n == initial.len(),
                0 <= i <= n,
                merged_total == merged_remaining(initial.take(i as int)),
                forall|j: int| 0 <= j < i ==> revoked_copy(#[trigger] list@[j], initial[j]),
                forall|j: int| i <= j < n ==> #[trigger] list@[j] == initial[j],
            decreases n - i,
        {
            proof {
                assert(initial.take(i + 1).drop_last() =~= initial.take(i as int));
                assert(initial.take(i + 1).last() == initial[i as int]);
            }
            if !list[i].revoked {
                let remaining = remaining_of(&list[i]);
                merged_total = saturating_add_nonneg(merged_total, remaining);
                let mut g = list[i].clone_grant();
                g.revoked = true;
                list.set(i, g);
            }
            i = i + 1;
        }
        assert(initial.take(n as int) =~= initial);
        if merged_total == 0 {
            *grants = Some(list);
            return Err(VestingError::NoSuchGrant);
        }
        let merged_amount: i128 = if merged_total > i128::MAX as u128 {
            i128::MAX
        } else {
            merged_total as i128
        };
        let merged = Grant {
            grantee: grantee.duplicate(),
            total_amount: merged_amount,
            claimed_amount: 0,
            start_ts: now,
            duration_secs: merge_duration,
            cliff_secs: 0,
            revoked: false,
        };
        let ghost before_push = list@;
        list.push(merged);
        assert forall|j: int| 0 <= j < n implies #[trigger] list@[j] == before_push[j] by {}
        *grants = Some(list);
        Ok(merged_total)
    }
}

/// What a grant has left to vest: `total - claimed`, at least zero.
pub open spec fn remaining_spec(g: Grant) -> int {
    let d = g.total_amount - g.claimed_amount;
    if d <= 0 {
        0
    } else {
        d
    }
}

/// Sum, saturating at `u128::MAX`, of what the active grants have left.
pub open spec fn merged_remaining(s: Seq<Grant>) -> int
    decreases s.len(),
{
    if s.len() == 0 {
        0
    } else {
        let prev = merged_remaining(s.drop_last());
        let add = if s.last().revoked {
            0
        } else {
            remaining_spec(s.last())
        };
        if prev + add > u128::MAX {
            u128::MAX as int
        } else {
            prev + add
        }
    }
}

/// `a` is `b` marked revoked, otherwise unchanged.
pub open spec fn revoked_copy(a: Grant, b: Grant) -> bool {
    &&& a.revoked
    &&& a.grantee@ == b.grantee@
    &&& a.total_amount == b.total_amount
    &&& a.claimed_amount == b.claimed_amount
    &&& a.start_ts == b.start_ts
    &&& a.cliff_secs == b.cliff_secs
    &&& a.duration_secs == b.duration_secs
}

/// `after` starts with `before` where every grant is now revoked and
/// otherwise unchanged.
pub open spec fn all_revoked_prefix(before: Seq<Grant>, after: Seq<Grant>) -> bool {
    &&& after.len() >= before.len()
    &&& forall|j: int| 0 <= j < before.len() ==> revoked_copy(#[trigger] after[j], before[j])
}

fn remaining_of(g: &Grant) -> (r: u128)
    ensures
        r == remaining_spec(*g),
{
    let total = g.total_amount;
    let claimed = g.claimed_amount;
    if total <= claimed {
        0
    } else if claimed >= 0 || total < 0 {
        (total - claimed) as u128
    } else {
        total as u128 + ((-(claimed + 1)) as u128 + 1)
    }
}

fn saturating_add_nonneg(a: u128, b: u128) -> (r: u128)
    ensures
        r == (if a + b > u128::MAX {
            u128::MAX as int
        } else {
            a + b
        }),
{
    match a.checked_add(b) {
        Some(v) => v,
        None => u128::MAX,
    }
}

impl Grant {
    /// A field-by-field copy of the grant.
    pub fn clone_grant(&self) -> (r: Grant)
        ensures
            r.grantee@ == self.grantee@,
            r.total_amount == self.total_amount,
            r.claimed_amount == self.claimed_amount,
            r.start_ts == self.start_ts,
            r.cliff_secs == self.cliff_secs,
            r.duration_secs == self.duration_secs,
            r.revoked == self.revoked,
    {
        Grant {
            grantee: self.grantee.duplicate(),
            total_amount: self.total_amount,
            claimed_amount: self.claimed_amount,
            start_ts: self.start_ts,
            cliff_secs: self.cliff_secs,
            duration_secs: self.duration_secs,
            revoked: self.revoked,
        }
    }
}

/// For a grant whose total fits in `u64`, the vested amount never
/// decreases as time advances and never leaves `[0, total]`.
pub proof fn law_vesting_monotone_and_bounded(g: Grant, t1: u64, t2: u64)
    requires
        !g.revoked,
        0 <= g.total_amount <= u64::MAX,
        t1 <= t2,
    ensures
        0 <= vested_amount(g, t1) <= vested_amount(g, t2) <= g.total_amount,
{
    let base = g.total_amount as int;
    assert((g.total_amount as u64) as int == base);
    let d = g.duration_secs as int;
    let e1 = sat_sub_u64(t1, g.start_ts);
    let e2 = sat_sub_u64(t2, g.start_ts);
    assert(e1 <= e2);
    if e1 < d && base * e1 <= u64::MAX {
        assert(0 <= (base * e1) / d <= base) by (nonlinear_arith)
            requires
                0 <= e1 < d,
                base >= 0,
        ;
    }
    if e2 < d && base * e2 <= u64::MAX {
        assert(0 <= (base * e2) / d <= base) by (nonlinear_arith)
            requires
                0 <= e2 < d,
                base >= 0,
        ;
    }
    if e1 < d && e2 < d && base * e2 <= u64::MAX {
        assert(base * e1 <= base * e2) by (nonlinear_arith)
            requires
                0 <= e1 <= e2,
                base >= 0,
        ;
        assert((base * e1) / d <= (base * e2) / d) by (nonlinear_arith)
            requires
                0 <= base * e1 <= base * e2,
                d > 0,
        ;
    }
    if e1 < d && base * e1 > u64::MAX {
        assert(base * e1 <= base * e2) by (nonlinear_arith)
            requires
                0 <= e1 <= e2,
                base >= 0,
        ;
    }
}

/// A claim takes everything claimable: right after claiming at `t`, the
/// grant has nothing more claimable at `t`.
pub proof fn law_claim_exhausts_claimable(g: Grant, t: u64, claimed: i128)
    requires
        !g.revoked,
        i128::MIN <= vested_amount(g, t) - g.claimed_amount <= i128::MAX,
        claimed == g.claimed_amount + claimable_amount(g, t),
    ensures
        claimable_amount(Grant { claimed_amount: claimed, ..g }, t) == 0,
{
}

/// A revocation splits the total between the grantee and the treasury
/// (when nothing beyond the total has vested), and a revoked grant has
/// nothing left to claim at any time.
pub proof fn law_revoke_splits_total(g: Grant, t: u64, later: u64)
    requires
        !g.revoked,
        0 <= g.total_amount <= u64::MAX,
    ensures
        vested_amount(g, t) + sat_sub_i128(g.total_amount as int, vested_amount(g, t))
            == g.total_amount,
        claimable_amount(
            Grant { revoked: true, claimed_amount: vested_amount(g, t) as i128, ..g },
            later,
        ) == 0,
{
    law_vesting_monotone_and_bounded(g, t, t);
}

/// Paused time does not count: the clock used for vesting lags the ledger
/// clock by exactly the accumulated paused seconds (or stops at zero).
pub proof fn law_paused_time_excluded(now: u64, total_paused_secs: u64)
    ensures
        now >= total_paused_secs ==> sat_sub_u64(now, total_paused_secs) + total_paused_secs == now,
        now < total_paused_secs ==> sat_sub_u64(now, total_paused_secs) == 0,
{
}

/// Between the cliff and the end of the schedule a grant vests linearly
/// from `start_ts`: `total * (t - start) / duration`, rounded down; the cliff
/// only delays the first release and does not shorten the schedule. Before
/// `start_ts + duration_secs` a positive grant is never fully vested.
pub proof fn law_linear_vesting_between_cliff_and_end(g: Grant, t: u64)
    requires
        !g.revoked,
        0 <= g.total_amount <= u64::MAX,
        g.start_ts + g.cliff_secs <= t,
        t - g.start_ts < g.duration_secs,
        g.total_amount * (t - g.start_ts) <= u64::MAX,
    ensures
        vested_amount(g, t) == g.total_amount * (t - g.start_ts) / (g.duration_secs as int),
        g.total_amount > 0 ==> vested_amount(g, t) < g.total_amount,
{
    let e: int = t - g.start_ts;
    let d: int = g.duration_secs as int;
    let a: int = g.total_amount as int;
    assert((g.total_amount as u64) as int == a);
    if a > 0 {
        assert(a * e / d < a) by (nonlinear_arith)
            requires
                a > 0,
                0 <= e < d,
        {
            assert(a * e < a * d);
        }
    }
}

/// Once `duration_secs` have passed since `start_ts` (and the cliff has
/// passed), a grant that was not revoked has vested in full.
pub proof fn law_full_vesting_at_end(g: Grant, t: u64)
    requires
        !g.revoked,
        g.start_ts + g.cliff_secs <= t,
        t - g.start_ts >= g.duration_secs,
    ensures
        vested_amount(g, t) == g.total_amount,
{
}

/// A revoked grant contributes nothing to a merge: appending one leaves the
/// merged total unchanged, and a list of revoked grants merges to nothing
/// (so the merge reports `NoSuchGrant`).
pub proof fn law_revoked_grants_do_not_merge(s: Seq<Grant>, g: Grant)
    requires
        g.revoked,
    ensures
        merged_remaining(s.push(g)) == merged_remaining(s),
        (forall|i: int| 0 <= i < s.len() ==> (#[trigger] s[i]).revoked) ==> merged_remaining(s)
            == 0,
{
    assert(s.push(g).drop_last() =~= s);
    lemma_merged_remaining_bounds(s);
    if forall|i: int| 0 <= i < s.len() ==> (#[trigger] s[i]).revoked {
        lemma_all_revoked_merge_to_zero(s);
    }
}

/// An active grant's whole remainder counts in a merge: appending an active
/// grant with `total - claimed` left adds exactly that (up to `u128::MAX`).
pub proof fn law_active_grant_adds_its_remainder(s: Seq<Grant>, g: Grant)
    requires
        !g.revoked,
        merged_remaining(s) + (g.total_amount - g.claimed_amount) <= u128::MAX,
    ensures
        g.total_amount >= g.claimed_amount ==> merged_remaining(s.push(g)) == merged_remaining(s)
            + g.total_amount - g.claimed_amount,
        g.total_amount < g.claimed_amount ==> merged_remaining(s.push(g)) == merged_remaining(s),
{
    assert(s.push(g).drop_last() =~= s);
    lemma_merged_remaining_bounds(s);
}

proof fn lemma_merged_remaining_bounds(s: Seq<Grant>)
    ensures
        0 <= merged_remaining(s) <= u128::MAX,
    decreases s.len(),
{
    if s.len() > 0 {
        lemma_merged_remaining_bounds(s.drop_last());
    }
}

proof fn lemma_all_revoked_merge_to_zero(s: Seq<Grant>)
    requires
        forall|i: int| 0 <= i < s.len() ==> (#[trigger] s[i]).revoked,
    ensures
        merged_remaining(s) == 0,
    decreases s.len(),
{
    if s.len() > 0 {
        let p = s.drop_last();
        assert forall|i: int| 0 <= i < p.len() implies (#[trigger] p[i]).revoked by {
            assert(p[i] == s[i]);
        }
        lemma_all_revoked_merge_to_zero(p);
        assert(s.last() == s[s.len() - 1]);
    }
}

} // verus!
