use stellar_lend::account::AccountId;
use stellar_lend::multisig::{
    ActionKind, MultisigContract, MultisigError, ProposalAction, ProposalExecutedEvent,
    ProposalStatus,
};

fn account(tag: u8) -> AccountId {
    AccountId::new(vec![tag; 32])
}

fn contract(threshold: u32) -> MultisigContract {
    MultisigContract::initialize(vec![account(1), account(2), account(3)], threshold).unwrap()
}

#[test]
fn initialize_validates_threshold() {
    assert!(matches!(
        MultisigContract::initialize(vec![account(1)], 0),
        Err(MultisigError::InvalidThreshold)
    ));
    assert!(matches!(
        MultisigContract::initialize(vec![account(1)], 2),
        Err(MultisigError::InvalidThreshold)
    ));
    let c = contract(2);
    assert_eq!(c.threshold, 2);
    assert_eq!(c.proposal_count, 0);
    assert!(c.is_signer(&account(2)));
    assert!(!c.is_signer(&account(9)));
}

#[test]
fn proposal_lifecycle_set_threshold() {
    let mut c = contract(2);
    let p = c
        .create_proposal(&account(1), ProposalAction::SetThreshold { new_threshold: 3 }, vec![7; 32], 100, 10)
        .unwrap();
    assert_eq!(p.id, 0);
    assert_eq!(p.expires_at, 110);
    assert_eq!(p.status, ProposalStatus::Active);
    assert_eq!(c.proposal_count, 1);

    let p = c.approve_proposal(&account(1), Some(p), 20).unwrap();
    assert_eq!(p.status, ProposalStatus::Active);
    assert!(matches!(
        c.approve_proposal(&account(1), Some(p.clone()), 21),
        Err(MultisigError::AlreadyApproved)
    ));
    assert!(matches!(
        c.execute_proposal(&account(1), Some(p.clone()), 22, &vec![7; 32]),
        Err(MultisigError::ProposalNotPassed)
    ));
    let p = c.approve_proposal(&account(2), Some(p), 23).unwrap();
    assert_eq!(p.status, ProposalStatus::Passed);
    assert_eq!(p.approvals.len(), 2);

    assert!(matches!(
        c.execute_proposal(&account(3), Some(p.clone()), 24, &vec![8; 32]),
        Err(MultisigError::PayloadHashMismatch)
    ));
    let (executed, event) = c.execute_proposal(&account(3), Some(p), 24, &vec![7; 32]).unwrap();
    assert_eq!(executed.status, ProposalStatus::Executed);
    assert_eq!(event, ProposalExecutedEvent { id: 0, action_kind: ActionKind::SetThreshold, ok: true });
    assert_eq!(c.threshold, 3);
    assert!(matches!(
        c.execute_proposal(&account(3), Some(executed), 25, &vec![7; 32]),
        Err(MultisigError::AlreadyExecuted)
    ));
}

#[test]
fn rotate_signers_applies_new_set() {
    let mut c = contract(1);
    let action = ProposalAction::RotateSigners { new_signers: vec![account(4), account(5)] };
    let p = c.create_proposal(&account(1), action, vec![], 10, 0).unwrap();
    let p = c.approve_proposal(&account(2), Some(p), 1).unwrap();
    let (_, event) = c.execute_proposal(&account(2), Some(p), 2, &vec![]).unwrap();
    assert_eq!(event.action_kind, ActionKind::RotateSigners);
    assert!(event.ok);
    assert!(c.is_signer(&account(4)));
    assert!(!c.is_signer(&account(1)));
}

#[test]
fn zero_threshold_action_is_not_applied() {
    let mut c = contract(1);
    let p = c.create_proposal(&account(1), ProposalAction::SetThreshold { new_threshold: 0 }, vec![], 10, 0).unwrap();
    let p = c.approve_proposal(&account(1), Some(p), 0).unwrap();
    let (_, event) = c.execute_proposal(&account(1), Some(p), 0, &vec![]).unwrap();
    assert!(!event.ok);
    assert_eq!(c.threshold, 1);
}

#[test]
fn expiry_and_authorization() {
    let mut c = contract(1);
    assert!(matches!(
        c.create_proposal(&account(9), ProposalAction::SetThreshold { new_threshold: 1 }, vec![], 5, 0),
        Err(MultisigError::Unauthorized)
    ));
    assert_eq!(c.proposal_count, 0);
    let p = c.create_proposal(&account(1), ProposalAction::SetThreshold { new_threshold: 1 }, vec![], 5, 0).unwrap();
    assert!(matches!(c.approve_proposal(&account(1), Some(p.clone()), 6), Err(MultisigError::ProposalExpired)));
    assert!(matches!(c.approve_proposal(&account(9), Some(p.clone()), 1), Err(MultisigError::Unauthorized)));
    assert!(matches!(c.approve_proposal(&account(1), None, 1), Err(MultisigError::ProposalNotFound)));
    let passed = c.approve_proposal(&account(1), Some(p), 1).unwrap();
    assert!(matches!(
        c.execute_proposal(&account(1), Some(passed), 6, &vec![]),
        Err(MultisigError::ProposalExpired)
    ));
}

#[test]
fn cancel_requires_active_proposal() {
    let mut c = contract(1);
    let p = c
        .create_proposal(
            &account(1),
            ProposalAction::InvokeContract {
                contract: account(8),
                fn_symbol: "transfer".to_string(),
                args_hash: vec![1, 2],
            },
            vec![],
            5,
            0,
        )
        .unwrap();
    let cancelled = c.cancel_proposal(&account(2), Some(p.clone())).unwrap();
    assert_eq!(cancelled.status, ProposalStatus::Cancelled);
    assert_eq!(cancelled.id, p.id);
    assert!(matches!(c.cancel_proposal(&account(9), Some(p.clone())), Err(MultisigError::Unauthorized)));
    assert!(matches!(c.cancel_proposal(&account(2), None), Err(MultisigError::ProposalNotFound)));
    assert!(matches!(
        c.approve_proposal(&account(1), Some(cancelled.clone()), 0),
        Err(MultisigError::ProposalNotPassed)
    ));
    assert!(matches!(
        c.execute_proposal(&account(1), Some(cancelled), 0, &vec![]),
        Err(MultisigError::AlreadyCancelled)
    ));
    let passed = c.approve_proposal(&account(1), Some(p), 0).unwrap();
    assert!(matches!(c.cancel_proposal(&account(2), Some(passed)), Err(MultisigError::ProposalNotPassed)));
}

#[test]
fn action_kind_names() {
    assert_eq!(ActionKind::SetThreshold.name(), "SetThreshold");
    assert_eq!(ActionKind::RotateSigners.name(), "RotateSigners");
    assert_eq!(ActionKind::InvokeContract.name(), "InvokeContract");
}

fn execute_action(c: &mut MultisigContract, action: ProposalAction) -> ProposalExecutedEvent {
    let p = c.create_proposal(&account(1), action, vec![], 10, 0).unwrap();
    let mut p = p;
    for signer in [1u8, 2, 3] {
        if p.status == ProposalStatus::Active {
            p = c.approve_proposal(&account(signer), Some(p), 0).unwrap();
        }
    }
    c.execute_proposal(&account(1), Some(p), 0, &vec![]).unwrap().1
}

#[test]
fn test_shrink_below_threshold_is_rejected() {
    let mut c = contract(3);
    let event = execute_action(&mut c, ProposalAction::RotateSigners { new_signers: vec![account(4), account(5)] });
    assert!(!event.ok);
    assert_eq!(c.signers.len(), 3);
    assert!(c.is_signer(&account(1)));
    assert_eq!(c.threshold, 3);
}

#[test]
fn test_shrink_to_exact_threshold_succeeds() {
    let mut c = contract(2);
    let event = execute_action(&mut c, ProposalAction::RotateSigners { new_signers: vec![account(4), account(5)] });
    assert!(event.ok);
    assert_eq!(c.signers.len(), 2);
    assert!(c.is_signer(&account(5)));
}

#[test]
fn only_a_zero_threshold_is_refused() {
    let mut c = contract(1);
    let event = execute_action(&mut c, ProposalAction::SetThreshold { new_threshold: 0 });
    assert!(!event.ok);
    assert_eq!(c.threshold, 1);
    let event = execute_action(&mut c, ProposalAction::SetThreshold { new_threshold: 4 });
    assert!(event.ok);
    assert_eq!(c.threshold, 4);
}

#[test]
fn executed_proposal_keeps_its_fields() {
    let mut c = contract(1);
    let p = c.create_proposal(&account(2), ProposalAction::SetThreshold { new_threshold: 2 }, vec![9; 4], 50, 7).unwrap();
    let p = c.approve_proposal(&account(1), Some(p), 8).unwrap();
    let (done, _) = c.execute_proposal(&account(3), Some(p.clone()), 9, &vec![9; 4]).unwrap();
    assert_eq!(done.proposer.key, p.proposer.key);
    assert_eq!(done.payload_hash, p.payload_hash);
    assert_eq!(done.expires_at, 57);
}
