//! A multisig proposal machine.
//!
//! Signers create proposals carrying a typed action and the hash of its
//! payload. Each signer may approve an active proposal once; reaching the
//! threshold marks it passed. A passed, unexpired proposal executes once,
//! and only with the payload hash recorded at creation.
use vstd::prelude::*;
use crate::account::{account_views, bytes_equal, contains_account, AccountId};

verus! {

/// The action a proposal carries.
#[derive(Clone, Debug)]
pub enum ProposalAction {
    /// Change the approval threshold for later proposals.
    SetThreshold { new_threshold: u32 },
    /// Replace the signer set.
    RotateSigners { new_signers: Vec<AccountId> },
    /// Call `fn_symbol` on `contract`.
    InvokeContract { contract: AccountId, fn_symbol: String, args_hash: Vec<u8> },
}

/// Which kind of action a proposal carries.
#[derive(Clone, Copy, Debug, PartialEq, Eq, Structural)]
pub enum ActionKind {
    SetThreshold,
    RotateSigners,
    InvokeContract,
}

impl ActionKind {
    /// The name of the action kind.
    pub fn name(&self) -> (r: &'static str)
        ensures
            *self == ActionKind::SetThreshold ==> r@ == "SetThreshold"@,
            *self == ActionKind::RotateSigners ==> r@ == "RotateSigners"@,
            *self == ActionKind::InvokeContract ==> r@ == "InvokeContract"@,
    {
        match self {
            ActionKind::SetThreshold => "SetThreshold",
            ActionKind::RotateSigners => "RotateSigners",
            ActionKind::InvokeContract => "InvokeContract",
        }
    }
}

pub open spec fn kind_of(action: ProposalAction) -> ActionKind {
    match action {
        ProposalAction::SetThreshold { .. } => ActionKind::SetThreshold,
        ProposalAction::RotateSigners { .. } => ActionKind::RotateSigners,
        ProposalAction::InvokeContract { .. } => ActionKind::InvokeContract,
    }
}

/// Lifecycle state of a proposal.
#[derive(Clone, Copy, Debug, PartialEq, Eq, Structural)]
pub enum ProposalStatus {
    Active,
    Passed,
    Executed,
    Expired,
    Cancelled,
}

/// A proposal: its action, the payload hash bound at creation, the signers
/// that approved it and the ledger after which it expires.
#[derive(Clone, Debug)]
pub struct Proposal {
    pub id: u64,
    pub proposer: AccountId,
    pub action: ProposalAction,
    pub payload_hash: Vec<u8>,
    pub approvals: Vec<AccountId>,
    pub status: ProposalStatus,
    pub expires_at: u64,
}

/// Published after a proposal has executed.
#[derive(Clone, Copy, Debug, PartialEq, Eq, Structural)]
pub struct ProposalExecutedEvent {
    pub id: u64,
    pub action_kind: ActionKind,
    pub ok: bool,
}

/// Storage keys of the multisig.
#[derive(Clone, Copy, Debug, PartialEq, Eq, Structural)]
pub enum MultisigDataKey {
    Threshold,
    Signers,
    ProposalCount,
    Proposal(u64),
}

/// Why a multisig operation was refused.
#[derive(Clone, Copy, Debug, PartialEq, Eq, Structural)]
pub enum MultisigError {
    Unauthorized,
    ProposalNotFound,
    ProposalNotPassed,
    ProposalExpired,
    AlreadyExecuted,
    AlreadyApproved,
    PayloadHashMismatch,
    QuorumNotReached,
    InvalidAction,
    InvalidThreshold,
    InvalidSigners,
    AlreadyCancelled,
}

/// The multisig's configuration: its signers, the approval threshold and
/// the number of proposals created so far.
#[derive(Clone, Debug)]
pub struct MultisigContract {
    pub signers: Vec<AccountId>,
    pub threshold: u32,
    pub proposal_count: u64,
}

/// Whether no identity occurs twice in `s`.
pub open spec fn no_duplicates(s: Seq<Seq<u8>>) -> bool {
    forall|i: int, j: int| 0 <= i < j < s.len() ==> s[i] != s[j]
}

/// A threshold a signer set of `n` can meet: at least one, at most `n`.
pub open spec fn threshold_acceptable(threshold: u32, n: nat) -> bool {
    1 <= threshold <= n
}

/// A new signer set of `n` keys that can still reach `threshold`: not
/// empty and not smaller than the threshold.
pub open spec fn signers_acceptable(n: nat, threshold: u32) -> bool {
    n != 0 && n >= threshold
}

/// A copy of a list of accounts.
fn copy_accounts(v: &Vec<AccountId>) -> (r: Vec<AccountId>)
    ensures
        r@.len() == v@.len(),
        account_views(r@) == account_views(v@),
{
    let mut out: Vec<AccountId> = Vec::new();
    let n = v.len();
    let mut i: usize = 0;
    while i < n
        invariant
            n == v.len(),
            0 <= i <= n,
            out@.len() == i,
            forall|j: int| 0 <= j < i ==> #[trigger] out@[j]@ == v@[j]@,
        decreases n - i,
    {
        out.push(v[i].duplicate());
        i = i + 1;
    }
    assert(account_views(out@) =~= account_views(v@));
    out
}

impl MultisigContract {
    /// The identities of the signers.
    pub open spec fn signer_views(&self) -> Seq<Seq<u8>> {
        account_views(self.signers@)
    }

    /// The threshold can be met: `1 <= threshold <= signers.len()`.
    pub open spec fn wf(&self) -> bool {
        threshold_acceptable(self.threshold, self.signers@.len())
    }

    /// A multisig with the given signers and threshold; the threshold must
    /// be between one and the number of signers.
    pub fn initialize(signers: Vec<AccountId>, threshold: u32) -> (res: Result<
        MultisigContract,
        MultisigError,
    >)
        ensures
            (threshold == 0 || threshold > signers.len()) ==> res is Err && res->Err_0
                == MultisigError::InvalidThreshold,
            (threshold > 0 && threshold <= signers.len()) ==> res is Ok && res->Ok_0.signers@
                == signers@ && res->Ok_0.threshold == threshold && res->Ok_0.proposal_count == 0,
            res is Ok ==> res->Ok_0.wf(),
    {
        if threshold == 0 || threshold as usize > signers.len() {
            return Err(MultisigError::InvalidThreshold);
        }
        Ok(MultisigContract { signers, threshold, proposal_count: 0 })
    }

    /// Whether `caller` is a signer.
    pub fn is_signer(&self, caller: &AccountId) -> (r: bool)
        ensures
            r == self.signer_views().contains(caller@),
    {
        contains_account(&self.signers, caller)
    }

    /// A new active proposal by `caller` (a signer) carrying `action`; it
    /// expires `ttl_ledgers` after `ledger_sequence`. Takes the next id.
    pub fn create_proposal(
        &mut self,
        caller: &AccountId,
        action: ProposalAction,
        payload_hash: Vec<u8>,
        ttl_ledgers: u64,
        ledger_sequence: u32,
    ) -> (res: Result<Proposal, MultisigError>)
        requires
            old(self).proposal_count < u64::MAX,
            ledger_sequence + ttl_ledgers <= u64::MAX,
        ensures
            final(self).signers@ == old(self).signers@,
            final(self).threshold == old(self).threshold,
            !old(self).signer_views().contains(caller@) ==> res is Err && res->Err_0
                == MultisigError::Unauthorized && final(self).proposal_count == old(
                self,
            ).proposal_count,
            old(self).signer_views().contains(caller@) ==> res is Ok && final(self).proposal_count
                == old(self).proposal_count + 1 && ({
                let p = res->Ok_0;
                &&& p.id == old(self).proposal_count
                &&& p.proposer@ == caller@
                &&& p.action == action
                &&& p.payload_hash@ == payload_hash@
                &&& p.approvals@.len() == 0
                &&& p.status == ProposalStatus::Active
                &&& p.expires_at == ledger_sequence + ttl_ledgers
            }),
    {
        if !self.is_signer(caller) {
            return Err(MultisigError::Unauthorized);
        }
        let id = self.proposal_count;
        self.proposal_count = id + 1;
        let expires_at = ledger_sequence as u64 + ttl_ledgers;
        Ok(
            Proposal {
                id,
                proposer: caller.duplicate(),
                action,
                payload_hash,
                approvals: Vec::new(),
                status: ProposalStatus::Active,
                expires_at,
            },
        )
    }

    /// Records `caller`'s approval of `proposal` at `ledger_sequence` and
    /// returns the updated proposal; it passes once the approvals reach the
    /// threshold.
    pub fn approve_proposal(
        &self,
        caller: &AccountId,
        proposal: Option<Proposal>,
        ledger_sequence: u32,
    ) -> (res: Result<Proposal, MultisigError>)
        ensures
            !self.signer_views().contains(caller@) ==> res is Err && res->Err_0
                == MultisigError::Unauthorized,
            self.signer_views().contains(caller@) && proposal is None ==> res is Err
                && res->Err_0 == MultisigError::ProposalNotFound,
            self.signer_views().contains(caller@) && proposal is Some ==> ({
                let p = proposal->Some_0;
                let approvals = account_views(p.approvals@);
                if p.status == ProposalStatus::Expired || ledger_sequence > p.expires_at {
                    res is Err && res->Err_0 == MultisigError::ProposalExpired
                } else if p.status != ProposalStatus::Active {
                    res is Err && res->Err_0 == MultisigError::ProposalNotPassed
                } else if approvals.contains(caller@) {
                    res is Err && res->Err_0 == MultisigError::AlreadyApproved
                } else {
                    &&& res is Ok
                    &&& account_views(res->Ok_0.approvals@) == approvals.push(caller@)
                    &&& res->Ok_0.status == (if approvals.len() + 1 >= self.threshold {
                        ProposalStatus::Passed
                    } else {
                        ProposalStatus::Active
                    })
                    &&& res->Ok_0.id == p.id
                    &&& res->Ok_0.action == p.action
                    &&& res->Ok_0.payload_hash == p.payload_hash
                    &&& res->Ok_0.expires_at == p.expires_at
                    &&& res->Ok_0.proposer == p.proposer
                }
            }),
            res is Ok ==> proposal is Some && (no_duplicates(
                account_views(proposal->Some_0.approvals@),
            ) ==> no_duplicates(account_views(res->Ok_0.approvals@))),
    {
        if !self.is_signer(caller) {
            return Err(MultisigError::Unauthorized);
        }
        let mut p = match proposal {
            Some(p) => p,
            None => return Err(MultisigError::ProposalNotFound),
        };
        if p.status == ProposalStatus::Expired || ledger_sequence as u64 > p.expires_at {
            return Err(MultisigError::ProposalExpired);
        }
        if p.status != ProposalStatus::Active {
            return Err(MultisigError::ProposalNotPassed);
        }
        if contains_account(&p.approvals, caller) {
            return Err(MultisigError::AlreadyApproved);
        }
        let ghost before = p.approvals@;
        p.approvals.push(caller.duplicate());
        assert(account_views(p.approvals@) =~= account_views(before).push(caller@));
        proof {
            if no_duplicates(account_views(before)) {
                law_no_double_approval(account_views(before), caller@);
            }
        }
        if p.approvals.len() >= self.threshold as usize {
            p.status = ProposalStatus::Passed;
        }
        Ok(p)
    }

    /// Executes `proposal` on behalf of `caller` at `ledger_sequence`,
    /// provided it has passed, has not expired, and `payload_hash` matches
    /// the hash recorded at creation. Threshold and signer changes apply to
    /// `self`; an invocation is left to the caller to perform. Returns the
    /// executed proposal and the event to publish.
    pub fn execute_proposal(
        &mut self,
        caller: &AccountId,
        proposal: Option<Proposal>,
        ledger_sequence: u32,
        payload_hash: &Vec<u8>,
    ) -> (res: Result<(Proposal, ProposalExecutedEvent), MultisigError>)
        ensures
            res is Err ==> final(self).signers@ == old(self).signers@ && final(self).threshold
                == old(self).threshold,
            final(self).proposal_count == old(self).proposal_count,
            old(self).wf() && !(res matches Ok(r) && r.1.action_kind == ActionKind::SetThreshold)
                ==> final(self).wf(),
            !old(self).signer_views().contains(caller@) ==> res is Err && res->Err_0
                == MultisigError::Unauthorized,
            old(self).signer_views().contains(caller@) && proposal is None ==> res is Err
                && res->Err_0 == MultisigError::ProposalNotFound,
            old(self).signer_views().contains(caller@) && proposal is Some ==> ({
                let p = proposal->Some_0;
                if ledger_sequence > p.expires_at {
                    res is Err && res->Err_0 == MultisigError::ProposalExpired
                } else if p.status == ProposalStatus::Executed {
                    res is Err && res->Err_0 == MultisigError::AlreadyExecuted
                } else if p.status == ProposalStatus::Cancelled {
                    res is Err && res->Err_0 == MultisigError::AlreadyCancelled
                } else if p.status != ProposalStatus::Passed {
                    res is Err && res->Err_0 == MultisigError::ProposalNotPassed
                } else if p.payload_hash@ != payload_hash@ {
                    res is Err && res->Err_0 == MultisigError::PayloadHashMismatch
                } else {
                    &&& res is Ok
                    &&& res->Ok_0.0.status == ProposalStatus::Executed
                    &&& res->Ok_0.0.id == p.id
                    &&& res->Ok_0.0.action == p.action
                    &&& res->Ok_0.0.approvals == p.approvals
                    &&& res->Ok_0.0.proposer == p.proposer
                    &&& res->Ok_0.0.payload_hash == p.payload_hash
                    &&& res->Ok_0.0.expires_at == p.expires_at
                    &&& res->Ok_0.1.id == p.id
                    &&& res->Ok_0.1.action_kind == kind_of(p.action)
                    &&& match p.action {
                        ProposalAction::SetThreshold { new_threshold } => {
                            let ok = new_threshold != 0;
                            &&& res->Ok_0.1.ok == ok
                            &&& final(self).threshold == (if ok {
                                new_threshold
                            } else {
                                old(self).threshold
                            })
                            &&& final(self).signers@ == old(self).signers@
                        },
                        ProposalAction::RotateSigners { new_signers } => {
                            let ok = signers_acceptable(new_signers@.len(), old(self).threshold);
                            &&& res->Ok_0.1.ok == ok
                            &&& final(self).threshold == old(self).threshold
                            &&& final(self).signer_views() == (if ok {
                                account_views(new_signers@)
                            } else {
                                old(self).signer_views()
                            })
                        },
                        ProposalAction::InvokeContract { .. } => {
                            &&& res->Ok_0.1.ok
                            &&& final(self).threshold == old(self).threshold
                            &&& final(self).signers@ == old(self).signers@
                        },
                    }
                }
            }),
    {
        if !self.is_signer(caller) {
            return Err(MultisigError::Unauthorized);
        }
        let mut p = match proposal {
            Some(p) => p,
            None => return Err(MultisigError::ProposalNotFound),
        };
        if ledger_sequence as u64 > p.expires_at {
            return Err(MultisigError::ProposalExpired);
        }
        if p.status == ProposalStatus::Executed {
            return Err(MultisigError::AlreadyExecuted);
        }
        if p.status == ProposalStatus::Cancelled {
            return Err(MultisigError::AlreadyCancelled);
        }
        if p.status != ProposalStatus::Passed {
            return Err(MultisigError::ProposalNotPassed);
        }
        if !bytes_equal(&p.payload_hash, payload_hash) {
            return Err(MultisigError::PayloadHashMismatch);
        }
        let (action_kind, ok) = match &p.action {
            ProposalAction::SetThreshold { new_threshold } => {
                if *new_threshold == 0 {
                    (ActionKind::SetThreshold, false)
                } else {
                    self.threshold = *new_threshold;
                    (ActionKind::SetThreshold, true)
                }
            },
            ProposalAction::RotateSigners { new_signers } => {
                if new_signers.len() == 0 || new_signers.len() < self.threshold as usize {
                    (ActionKind::RotateSigners, false)
                } else {
                    self.signers = copy_accounts(new_signers);
                    (ActionKind::RotateSigners, true)
                }
            },
            ProposalAction::InvokeContract { .. } => (ActionKind::InvokeContract, true),
        };
        p.status = ProposalStatus::Executed;
        let event = ProposalExecutedEvent { id: p.id, action_kind, ok };
        Ok((p, event))
    }

    /// Cancels `proposal` on behalf of `caller` (a signer): an active
    /// proposal becomes cancelled, so it can be neither approved nor
    /// executed afterwards. Returns the cancelled proposal.
    pub fn cancel_proposal(&self, caller: &AccountId, proposal: Option<Proposal>) -> (res: Result<
        Proposal,
        MultisigError,
    >)
        ensures
            !self.signer_views().contains(caller@) ==> res is Err && res->Err_0
                == MultisigError::Unauthorized,
            self.signer_views().contains(caller@) && proposal is None ==> res is Err
                && res->Err_0 == MultisigError::ProposalNotFound,
            self.signer_views().contains(caller@) && proposal is Some ==> ({
                let p = proposal->Some_0;
                if p.status != ProposalStatus::Active {
                    res is Err && res->Err_0 == MultisigError::ProposalNotPassed
                } else {
                    res is Ok && res->Ok_0 == (Proposal { status: ProposalStatus::Cancelled, ..p })
                }
            }),
    {
        if !self.is_signer(caller) {
            return Err(MultisigError::Unauthorized);
        }
        let mut p = match proposal {
            Some(p) => p,
            None => return Err(MultisigError::ProposalNotFound),
        };
        if p.status != ProposalStatus::Active {
            return Err(MultisigError::ProposalNotPassed);
        }
        p.status = ProposalStatus::Cancelled;
        Ok(p)
    }
}

/// A proposal can be approved by a signer only once: approving never
/// introduces a duplicate approval, so the approval count equals the number
/// of distinct approving signers.
pub proof fn law_no_double_approval(approvals: Seq<Seq<u8>>, caller: Seq<u8>)
    requires
        no_duplicates(approvals),
        !approvals.contains(caller),
    ensures
        no_duplicates(approvals.push(caller)),
{
    assert forall|i: int, j: int| 0 <= i < j < approvals.push(caller).len() implies approvals.push(
        caller,
    )[i] != approvals.push(caller)[j] by {
        if j == approvals.len() {
            assert(approvals[i] == approvals.push(caller)[i]);
        }
    }
}

} // verus!
