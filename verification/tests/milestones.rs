//! The milestone ledger: creation rules, approval, release, the running-sum
//! bound, and the append-only audit log.

use escrow_engine::types::{
    AccountId, ContractConfig, EscrowData, EscrowError, EscrowState, MilestoneAction,
};

fn ledger_config() -> ContractConfig {
    ContractConfig {
        min_escrow_amount: 1,
        max_escrow_amount: 1_000_000_000,
        default_timeout_days: 7,
        max_milestones: 3,
        fee_percentage: 250,
        rate_limit_calls: 10,
        rate_limit_window_hours: 1,
    }
}

fn funded_escrow(cfg: &ContractConfig, amount: i128) -> EscrowData {
    let mut e = EscrowData::create(
        cfg,
        AccountId(1),
        AccountId(2),
        Some(AccountId(3)),
        None,
        AccountId(9),
        amount,
        None,
        100,
    )
    .unwrap();
    e.fund(AccountId(1), amount, 110).unwrap();
    e
}

#[test]
fn milestone_ids_are_sequential() {
    let cfg = ledger_config();
    let mut e = funded_escrow(&cfg, 1000);
    let a = e
        .create_milestone(&cfg, AccountId(1), "one".to_string(), 100, 120)
        .unwrap();
    let b = e
        .create_milestone(&cfg, AccountId(1), "two".to_string(), 200, 121)
        .unwrap();
    let c = e
        .create_milestone(&cfg, AccountId(1), "three".to_string(), 300, 122)
        .unwrap();
    assert_eq!((a, b, c), (1, 2, 3));
    assert_eq!(e.milestones.len(), 3);
    assert_eq!(e.milestones[1].id, 2);
    assert_eq!(e.milestones[1].description, "two".to_string());
    assert_eq!(e.milestones[1].amount, 200);
    assert!(!e.milestones[1].approved);
    assert!(!e.milestones[1].released);
}

#[test]
fn milestone_sum_above_amount_is_rejected() {
    // a milestone that would push the running sum above the escrow amount
    // fails with AmountMismatch and appends nothing
    let cfg = ledger_config();
    let mut e = funded_escrow(&cfg, 1000);
    e.create_milestone(&cfg, AccountId(1), "one".to_string(), 700, 120)
        .unwrap();
    let before = e.get_escrow();
    let err = e
        .create_milestone(&cfg, AccountId(1), "too much".to_string(), 301, 121)
        .unwrap_err();
    assert_eq!(err, EscrowError::AmountMismatch);
    assert_eq!(e, before);
    assert_eq!(e.milestones.len(), 1);
    // a milestone that exactly fills the amount is accepted
    e.create_milestone(&cfg, AccountId(1), "rest".to_string(), 300, 122)
        .unwrap();
    assert_eq!(e.milestones.len(), 2);
}

#[test]
fn milestone_count_is_capped() {
    let cfg = ledger_config();
    let mut e = funded_escrow(&cfg, 1000);
    for (i, name) in ["a", "b", "c"].iter().enumerate() {
        e.create_milestone(&cfg, AccountId(1), name.to_string(), 100, 120 + i as u64)
            .unwrap();
    }
    let err = e
        .create_milestone(&cfg, AccountId(1), "d".to_string(), 100, 130)
        .unwrap_err();
    assert_eq!(err, EscrowError::MaxMilestonesExceeded);
    assert_eq!(e.milestones.len(), 3);
}

#[test]
fn no_new_milestones_after_a_release() {
    let cfg = ledger_config();
    let mut e = funded_escrow(&cfg, 1000);
    e.create_milestone(&cfg, AccountId(1), "one".to_string(), 400, 120)
        .unwrap();
    e.approve_milestone(AccountId(1), 1, 130).unwrap();
    e.release_milestone(&cfg, AccountId(1), 1, 140).unwrap();
    let err = e
        .create_milestone(&cfg, AccountId(1), "late".to_string(), 100, 150)
        .unwrap_err();
    assert_eq!(err, EscrowError::MilestoneAlreadyReleased);
}

#[test]
fn double_release_is_rejected_and_changes_nothing() {
    // releasing the same milestone twice returns MilestoneAlreadyReleased
    // the second time and does not change released_amount
    let cfg = ledger_config();
    let mut e = funded_escrow(&cfg, 1000);
    e.create_milestone(&cfg, AccountId(1), "one".to_string(), 400, 120)
        .unwrap();
    e.approve_milestone(AccountId(1), 1, 130).unwrap();
    e.release_milestone(&cfg, AccountId(1), 1, 140).unwrap();
    assert_eq!(e.released_amount, 400);
    let before = e.get_escrow();
    let err = e.release_milestone(&cfg, AccountId(1), 1, 150).unwrap_err();
    assert_eq!(err, EscrowError::MilestoneAlreadyReleased);
    assert_eq!(e.released_amount, 400);
    assert_eq!(e, before);
}

#[test]
fn release_needs_approval_first() {
    let cfg = ledger_config();
    let mut e = funded_escrow(&cfg, 1000);
    e.create_milestone(&cfg, AccountId(1), "one".to_string(), 400, 120)
        .unwrap();
    let err = e.release_milestone(&cfg, AccountId(1), 1, 130).unwrap_err();
    assert_eq!(err, EscrowError::MilestoneNotApproved);
}

#[test]
fn double_approval_is_rejected() {
    let cfg = ledger_config();
    let mut e = funded_escrow(&cfg, 1000);
    e.create_milestone(&cfg, AccountId(1), "one".to_string(), 400, 120)
        .unwrap();
    e.approve_milestone(AccountId(3), 1, 130).unwrap();
    assert!(e.milestones[0].approved);
    assert_eq!(e.milestones[0].approved_at, Some(130));
    let err = e.approve_milestone(AccountId(1), 1, 140).unwrap_err();
    assert_eq!(err, EscrowError::MilestoneAlreadyApproved);
}

#[test]
fn unknown_milestone_id_is_rejected() {
    let cfg = ledger_config();
    let mut e = funded_escrow(&cfg, 1000);
    e.create_milestone(&cfg, AccountId(1), "one".to_string(), 400, 120)
        .unwrap();
    assert_eq!(
        e.approve_milestone(AccountId(1), 0, 130).unwrap_err(),
        EscrowError::MilestoneNotFound
    );
    assert_eq!(
        e.approve_milestone(AccountId(1), 2, 130).unwrap_err(),
        EscrowError::MilestoneNotFound
    );
    assert_eq!(
        e.release_milestone(&cfg, AccountId(1), 5, 130).unwrap_err(),
        EscrowError::MilestoneNotFound
    );
}

#[test]
fn milestones_can_be_planned_before_funding() {
    let cfg = ledger_config();
    let mut e = EscrowData::create(
        &cfg,
        AccountId(1),
        AccountId(2),
        None,
        None,
        AccountId(9),
        1000,
        None,
        100,
    )
    .unwrap();
    e.create_milestone(&cfg, AccountId(1), "early".to_string(), 500, 105)
        .unwrap();
    assert_eq!(e.state, EscrowState::Created);
    // but releasing needs a funded escrow
    e.approve_milestone(AccountId(1), 1, 106).unwrap();
    let err = e.release_milestone(&cfg, AccountId(1), 1, 107).unwrap_err();
    assert_eq!(err, EscrowError::InvalidTransition);
}

#[test]
fn audit_log_records_every_action() {
    let cfg = ledger_config();
    let mut e = funded_escrow(&cfg, 1000);
    e.create_milestone(&cfg, AccountId(1), "one".to_string(), 400, 120)
        .unwrap();
    e.approve_milestone(AccountId(1), 1, 130).unwrap();
    e.release_milestone(&cfg, AccountId(1), 1, 140).unwrap();
    assert_eq!(e.milestone_history.len(), 3);
    let created = &e.milestone_history[0];
    assert_eq!(created.action, MilestoneAction::Created);
    assert_eq!(created.timestamp, 120);
    assert!(!created.milestone.approved);
    let approved = &e.milestone_history[1];
    assert_eq!(approved.action, MilestoneAction::Approved);
    assert!(approved.milestone.approved);
    assert_eq!(approved.milestone.approved_at, Some(130));
    let released = &e.milestone_history[2];
    assert_eq!(released.action, MilestoneAction::Released);
    assert!(released.milestone.released);
    assert_eq!(released.milestone.released_at, Some(140));
    assert_eq!(released.milestone.id, 1);
}

#[test]
fn milestone_release_fee_is_floored() {
    // 2.5% of 77 is 1.925, floored to 1
    let cfg = ledger_config();
    let mut e = funded_escrow(&cfg, 1000);
    e.create_milestone(&cfg, AccountId(1), "odd".to_string(), 77, 120)
        .unwrap();
    e.approve_milestone(AccountId(1), 1, 130).unwrap();
    let payout = e.release_milestone(&cfg, AccountId(1), 1, 140).unwrap();
    assert_eq!(payout.fee, 1);
    assert_eq!(payout.to_freelancer, 76);
    assert_eq!(e.released_amount, 77);
    assert_eq!(e.fee_collected, 1);
}
