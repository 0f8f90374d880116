//! The fee calculator, the dispute split computation, the configuration
//! check, and the read-only snapshots.

use escrow_engine::dispute::split_residual;
use escrow_engine::fee::{compute_fee, BPS_DENOM, MAX_GROSS};
use escrow_engine::ledger::milestone_total;
use escrow_engine::types::{
    AccountId, ContractConfig, DisputeResult, EscrowData, EscrowState,
};

#[test]
fn fee_is_floored_basis_points() {
    assert_eq!(compute_fee(1000, 250), (25, 975));
    assert_eq!(compute_fee(400, 250), (10, 390));
    assert_eq!(compute_fee(77, 250), (1, 76));
    assert_eq!(compute_fee(39, 250), (0, 39));
    assert_eq!(compute_fee(0, 250), (0, 0));
    assert_eq!(compute_fee(1000, 0), (0, 1000));
    assert_eq!(compute_fee(1000, BPS_DENOM), (1000, 0));
    assert_eq!(compute_fee(MAX_GROSS, BPS_DENOM), (MAX_GROSS, 0));
    assert_eq!(compute_fee(999_999, 1), (99, 999_900));
}

#[test]
fn split_follows_the_verdict() {
    assert_eq!(split_residual(600, DisputeResult::Split, 5000), (300, 300));
    assert_eq!(split_residual(600, DisputeResult::ClientWins, 5000), (0, 600));
    assert_eq!(
        split_residual(600, DisputeResult::FreelancerWins, 5000),
        (600, 0)
    );
    // the split portion is floored, like a fee
    assert_eq!(split_residual(601, DisputeResult::Split, 5000), (300, 301));
    assert_eq!(split_residual(600, DisputeResult::Split, 0), (0, 600));
    assert_eq!(
        split_residual(600, DisputeResult::Split, BPS_DENOM),
        (600, 0)
    );
}

#[test]
fn config_validity_is_checked_field_by_field() {
    let good = ContractConfig {
        min_escrow_amount: 1,
        max_escrow_amount: 1_000_000,
        default_timeout_days: 7,
        max_milestones: 10,
        fee_percentage: 250,
        rate_limit_calls: 10,
        rate_limit_window_hours: 1,
    };
    assert!(good.is_valid());
    assert!(!ContractConfig { min_escrow_amount: 0, ..good }.is_valid());
    assert!(!ContractConfig { min_escrow_amount: 2_000_000, ..good }.is_valid());
    assert!(!ContractConfig { max_escrow_amount: MAX_GROSS + 1, ..good }.is_valid());
    assert!(!ContractConfig { fee_percentage: 10_001, ..good }.is_valid());
    assert!(!ContractConfig { fee_percentage: -1, ..good }.is_valid());
    assert!(!ContractConfig { max_milestones: 0, ..good }.is_valid());
}

#[test]
fn state_labels_spell_the_state() {
    assert_eq!(EscrowState::Created.label(), "Created".to_string());
    assert_eq!(EscrowState::Funded.label(), "Funded".to_string());
    assert_eq!(EscrowState::Released.label(), "Released".to_string());
    assert_eq!(EscrowState::Refunded.label(), "Refunded".to_string());
    assert_eq!(EscrowState::Disputed.label(), "Disputed".to_string());
}

#[test]
fn summary_reflects_the_record() {
    let cfg = ContractConfig {
        min_escrow_amount: 1,
        max_escrow_amount: 1_000_000,
        default_timeout_days: 7,
        max_milestones: 10,
        fee_percentage: 250,
        rate_limit_calls: 10,
        rate_limit_window_hours: 1,
    };
    let mut e = EscrowData::create(
        &cfg,
        AccountId(4),
        AccountId(5),
        None,
        None,
        AccountId(9),
        750,
        None,
        42,
    )
    .unwrap();
    e.create_milestone(&cfg, AccountId(4), "one".to_string(), 300, 50)
        .unwrap();
    e.create_milestone(&cfg, AccountId(4), "two".to_string(), 450, 51)
        .unwrap();
    let s = e.get_summary();
    assert_eq!(s.client, AccountId(4));
    assert_eq!(s.freelancer, AccountId(5));
    assert_eq!(s.amount, 750);
    assert_eq!(s.status, "Created".to_string());
    assert_eq!(s.created_at, 42);
    assert_eq!(s.milestone_count, 2);
}

#[test]
fn export_duplicates_the_record() {
    let cfg = ContractConfig {
        min_escrow_amount: 1,
        max_escrow_amount: 1_000_000,
        default_timeout_days: 7,
        max_milestones: 10,
        fee_percentage: 250,
        rate_limit_calls: 10,
        rate_limit_window_hours: 1,
    };
    let mut e = EscrowData::create(
        &cfg,
        AccountId(4),
        AccountId(5),
        None,
        None,
        AccountId(9),
        750,
        None,
        42,
    )
    .unwrap();
    e.fund(AccountId(4), 750, 60).unwrap();
    e.create_milestone(&cfg, AccountId(4), "one".to_string(), 300, 70)
        .unwrap();
    let x = e.export("escrow-42".to_string(), 99);
    assert_eq!(x.contract_id, "escrow-42".to_string());
    assert_eq!(x.escrow_data, e);
    assert_eq!(x.milestones, e.milestones);
    assert_eq!(x.milestone_history, e.milestone_history);
    assert_eq!(x.export_timestamp, 99);
    assert_eq!(x.export_version, "1.0".to_string());
}

#[test]
fn ledger_total_sums_the_amounts() {
    let cfg = ContractConfig {
        min_escrow_amount: 1,
        max_escrow_amount: 1_000_000,
        default_timeout_days: 7,
        max_milestones: 10,
        fee_percentage: 250,
        rate_limit_calls: 10,
        rate_limit_window_hours: 1,
    };
    let mut e = EscrowData::create(
        &cfg,
        AccountId(4),
        AccountId(5),
        None,
        None,
        AccountId(9),
        750,
        None,
        42,
    )
    .unwrap();
    assert_eq!(milestone_total(&e.milestones), 0);
    e.create_milestone(&cfg, AccountId(4), "one".to_string(), 300, 50)
        .unwrap();
    e.create_milestone(&cfg, AccountId(4), "two".to_string(), 450, 51)
        .unwrap();
    assert_eq!(milestone_total(&e.milestones), 750);
}
