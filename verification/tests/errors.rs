//! One failing input per error condition, and the no-side-effect guarantee
//! of every failure.

use escrow_engine::types::{
    AccountId, ContractConfig, DisputeResult, EscrowData, EscrowError, EscrowState, Milestone,
};

fn error_config() -> ContractConfig {
    ContractConfig {
        min_escrow_amount: 10,
        max_escrow_amount: 1_000_000,
        default_timeout_days: 7,
        max_milestones: 5,
        fee_percentage: 250,
        rate_limit_calls: 10,
        rate_limit_window_hours: 1,
    }
}

const CLIENT: AccountId = AccountId(1);
const FREELANCER: AccountId = AccountId(2);
const ARBITRATOR: AccountId = AccountId(3);
const STRANGER: AccountId = AccountId(77);

fn new_escrow(arbitrator: Option<AccountId>) -> EscrowData {
    EscrowData::create(
        &error_config(),
        CLIENT,
        FREELANCER,
        arbitrator,
        None,
        AccountId(9),
        1000,
        None,
        100,
    )
    .unwrap()
}

#[test]
fn create_rejects_amount_outside_bounds() {
    let cfg = error_config();
    let too_small = EscrowData::create(
        &cfg, CLIENT, FREELANCER, None, None, AccountId(9), 9, None, 100,
    );
    assert_eq!(too_small.unwrap_err(), EscrowError::InsufficientValue);
    let too_large = EscrowData::create(
        &cfg, CLIENT, FREELANCER, None, None, AccountId(9), 1_000_001, None, 100,
    );
    assert_eq!(too_large.unwrap_err(), EscrowError::InsufficientValue);
}

#[test]
fn fund_rejects_wrong_caller_value_and_state() {
    let mut e = new_escrow(None);
    assert_eq!(e.fund(STRANGER, 1000, 110).unwrap_err(), EscrowError::Unauthorized);
    assert_eq!(e.fund(CLIENT, 999, 110).unwrap_err(), EscrowError::InsufficientValue);
    assert_eq!(e.state, EscrowState::Created);
    e.fund(CLIENT, 1000, 110).unwrap();
    assert_eq!(e.fund(CLIENT, 1000, 120).unwrap_err(), EscrowError::AlreadyFunded);
    let cfg = error_config();
    e.release_full(&cfg, CLIENT, 130).unwrap();
    assert_eq!(e.fund(CLIENT, 1000, 140).unwrap_err(), EscrowError::InvalidTransition);
}

#[test]
fn release_full_rejects_wrong_state_caller_and_pending_milestones() {
    let cfg = error_config();
    let mut e = new_escrow(None);
    assert_eq!(
        e.release_full(&cfg, CLIENT, 110).unwrap_err(),
        EscrowError::InvalidTransition
    );
    e.fund(CLIENT, 1000, 110).unwrap();
    assert_eq!(
        e.release_full(&cfg, FREELANCER, 120).unwrap_err(),
        EscrowError::Unauthorized
    );
    e.create_milestone(&cfg, CLIENT, "part".to_string(), 400, 120)
        .unwrap();
    let before = e.get_escrow();
    // a milestone escrow releases per milestone, never in one sweep
    assert_eq!(
        e.release_full(&cfg, CLIENT, 130).unwrap_err(),
        EscrowError::InvalidTransition
    );
    assert_eq!(e, before);
}

#[test]
fn refund_needs_a_timeout_and_a_funded_escrow() {
    let mut e = new_escrow(None);
    assert_eq!(e.refund(110).unwrap_err(), EscrowError::InvalidTransition);
    e.fund(CLIENT, 1000, 110).unwrap();
    // no timeout configured: the residual never becomes refund-eligible
    assert_eq!(e.refund(1_000_000).unwrap_err(), EscrowError::TimeoutNotReached);
}

#[test]
fn refund_rejects_an_exhausted_escrow() {
    // a hand-built funded record whose whole amount is already released has
    // no residual left to refund
    let e0 = new_escrow(None);
    let mut e = EscrowData {
        state: EscrowState::Funded,
        funded_at: Some(110),
        timeout_secs: Some(100),
        milestones: vec![Milestone {
            id: 1,
            description: "all of it".to_string(),
            amount: 1000,
            approved: true,
            released: true,
            created_at: 105,
            approved_at: Some(106),
            released_at: Some(107),
        }],
        released_amount: 1000,
        fee_collected: 25,
        net_amount: 975,
        ..e0
    };
    assert_eq!(e.refund(10_000).unwrap_err(), EscrowError::NoResidualToSettle);
}

#[test]
fn raise_dispute_needs_arbitrator_party_and_funded_state() {
    let mut e = new_escrow(None);
    assert_eq!(
        e.raise_dispute(CLIENT, 110).unwrap_err(),
        EscrowError::InvalidTransition
    );
    e.fund(CLIENT, 1000, 110).unwrap();
    assert_eq!(
        e.raise_dispute(STRANGER, 120).unwrap_err(),
        EscrowError::Unauthorized
    );
    assert_eq!(
        e.raise_dispute(CLIENT, 120).unwrap_err(),
        EscrowError::ArbitratorRequired
    );
    assert_eq!(e.state, EscrowState::Funded);
}

#[test]
fn resolve_dispute_needs_the_arbitrator_and_an_active_dispute() {
    let cfg = error_config();
    let mut e = new_escrow(Some(ARBITRATOR));
    e.fund(CLIENT, 1000, 110).unwrap();
    assert_eq!(
        e.resolve_dispute(&cfg, ARBITRATOR, DisputeResult::Split, 5000, 120)
            .unwrap_err(),
        EscrowError::DisputeNotActive
    );
    e.raise_dispute(CLIENT, 120).unwrap();
    assert_eq!(
        e.resolve_dispute(&cfg, CLIENT, DisputeResult::Split, 5000, 130)
            .unwrap_err(),
        EscrowError::Unauthorized
    );
    assert_eq!(e.state, EscrowState::Disputed);
}

#[test]
fn dispute_is_terminal_once_resolved() {
    // once dispute_result is set, neither raising nor resolving succeeds
    let cfg = error_config();
    let mut e = new_escrow(Some(ARBITRATOR));
    e.fund(CLIENT, 1000, 110).unwrap();
    e.raise_dispute(CLIENT, 120).unwrap();
    assert_eq!(
        e.raise_dispute(FREELANCER, 125).unwrap_err(),
        EscrowError::InvalidTransition
    );
    e.resolve_dispute(&cfg, ARBITRATOR, DisputeResult::ClientWins, 0, 130)
        .unwrap();
    assert_eq!(e.dispute_result, Some(DisputeResult::ClientWins));
    let before = e.get_escrow();
    assert_eq!(
        e.raise_dispute(CLIENT, 140).unwrap_err(),
        EscrowError::InvalidTransition
    );
    assert_eq!(
        e.resolve_dispute(&cfg, ARBITRATOR, DisputeResult::Split, 5000, 140)
            .unwrap_err(),
        EscrowError::DisputeNotActive
    );
    assert_eq!(e, before);
    assert_eq!(e.dispute_result, Some(DisputeResult::ClientWins));
    assert_eq!(e.resolved_at, Some(130));
}

#[test]
fn milestone_creation_guards_fire_in_order() {
    let cfg = error_config();
    let mut e = new_escrow(None);
    assert_eq!(
        e.create_milestone(&cfg, STRANGER, "x".to_string(), 100, 110)
            .unwrap_err(),
        EscrowError::Unauthorized
    );
    assert_eq!(
        e.create_milestone(&cfg, CLIENT, "x".to_string(), 0, 110)
            .unwrap_err(),
        EscrowError::InsufficientValue
    );
    e.fund(CLIENT, 1000, 110).unwrap();
    e.release_full(&cfg, CLIENT, 120).unwrap();
    assert_eq!(
        e.create_milestone(&cfg, CLIENT, "x".to_string(), 100, 130)
            .unwrap_err(),
        EscrowError::InvalidTransition
    );
}

#[test]
fn milestone_release_rejects_strangers() {
    let cfg = error_config();
    let mut e = new_escrow(Some(ARBITRATOR));
    e.fund(CLIENT, 1000, 110).unwrap();
    e.create_milestone(&cfg, CLIENT, "one".to_string(), 400, 120)
        .unwrap();
    assert_eq!(
        e.approve_milestone(STRANGER, 1, 130).unwrap_err(),
        EscrowError::Unauthorized
    );
    e.approve_milestone(CLIENT, 1, 130).unwrap();
    assert_eq!(
        e.release_milestone(&cfg, STRANGER, 1, 140).unwrap_err(),
        EscrowError::Unauthorized
    );
    assert_eq!(
        e.release_milestone(&cfg, FREELANCER, 1, 140).unwrap_err(),
        EscrowError::Unauthorized
    );
}
