//! The laws of the escrow engine, proved over the transition functions:
//! the state machine never leaves the transition table, value is conserved
//! across every call sequence, a milestone cannot be released twice, the
//! milestone ledger never outgrows the escrow amount, and a resolved
//! dispute is final.

use vstd::prelude::*;

use crate::engine::{
    fund_tr, lemma_fund_tr, lemma_raise_dispute_tr, lemma_refund_tr, lemma_release_full_tr,
    lemma_resolve_dispute_tr, raise_dispute_tr, refund_tr, release_full_tr, resolve_dispute_tr,
};
use crate::fee::BPS_DENOM;
use crate::ledger::{
    approve_milestone_tr, client_or_arbitrator, create_milestone_tr, lemma_approve_milestone_tr,
    lemma_create_milestone_tr, lemma_release_milestone_tr, release_milestone_tr,
};
use crate::types::{
    config_valid, escrow_wf, lemma_full_release_means_all_released, lemma_milestone_sums_nonneg,
    milestone_ok, milestone_sum, outstanding, payout_total, released_sum, transition_ok,
    ts_bounded, AccountId, ContractConfig, DisputeResult, EscrowError, EscrowView, PayoutView,
};

verus! {

/// One entrypoint invocation of the state machine, with its arguments.
/// Used only in specifications, to quantify over call sequences.
pub enum Call {
    Fund { caller: AccountId, attached: i128, now: u64 },
    CreateMilestone { caller: AccountId, description: String, amount: i128, now: u64 },
    ApproveMilestone { caller: AccountId, id: u32, now: u64 },
    ReleaseMilestone { caller: AccountId, id: u32, now: u64 },
    ReleaseFull { caller: AccountId, now: u64 },
    Refund { now: u64 },
    RaiseDispute { caller: AccountId, now: u64 },
    ResolveDispute { caller: AccountId, verdict: DisputeResult, split_bps: u32, now: u64 },
}

/// The ledger time a call carries.
pub open spec fn call_time(c: Call) -> u64 {
    match c {
        Call::Fund { now, .. } => now,
        Call::CreateMilestone { now, .. } => now,
        Call::ApproveMilestone { now, .. } => now,
        Call::ReleaseMilestone { now, .. } => now,
        Call::ReleaseFull { now, .. } => now,
        Call::Refund { now } => now,
        Call::RaiseDispute { now, .. } => now,
        Call::ResolveDispute { now, .. } => now,
    }
}

/// A call the entrypoints accept: a split ratio is at most 100%.
pub open spec fn call_valid(c: Call) -> bool {
    match c {
        Call::ResolveDispute { split_bps, .. } => split_bps <= BPS_DENOM,
        _ => true,
    }
}

/// The record after one entrypoint invocation: the view its transition
/// function produces, which is the record unchanged whenever the call fails.
pub open spec fn step_view(cfg: ContractConfig, v: EscrowView, c: Call) -> EscrowView {
    match c {
        Call::Fund { caller, attached, now } => fund_tr(v, caller, attached, now).0,
        Call::CreateMilestone { caller, description, amount, now } => create_milestone_tr(
            cfg,
            v,
            caller,
            description,
            amount,
            now,
        ).0,
        Call::ApproveMilestone { caller, id, now } => approve_milestone_tr(v, caller, id, now).0,
        Call::ReleaseMilestone { caller, id, now } => release_milestone_tr(
            cfg,
            v,
            caller,
            id,
            now,
        ).0,
        Call::ReleaseFull { caller, now } => release_full_tr(cfg, v, caller, now).0,
        Call::Refund { now } => refund_tr(v, now).0,
        Call::RaiseDispute { caller, now } => raise_dispute_tr(v, caller, now).0,
        Call::ResolveDispute { caller, verdict, split_bps, now } => resolve_dispute_tr(
            cfg,
            v,
            caller,
            verdict,
            split_bps,
            now,
        ).0,
    }
}

/// Value a call takes into custody: the attached value of a successful
/// `fund`, nothing otherwise.
pub open spec fn step_inflow(cfg: ContractConfig, v: EscrowView, c: Call) -> int {
    match c {
        Call::Fund { caller, attached, now } => if fund_tr(v, caller, attached, now).1 is Ok {
            attached as int
        } else {
            0
        },
        _ => 0,
    }
}

/// Value a call pays out of custody: the payout total of a successful
/// settlement entrypoint, nothing otherwise.
pub open spec fn step_outflow(cfg: ContractConfig, v: EscrowView, c: Call) -> int {
    match c {
        Call::ReleaseMilestone { caller, id, now } => match release_milestone_tr(
            cfg,
            v,
            caller,
            id,
            now,
        ).1 {
            Ok(p) => payout_total(p),
            Err(_) => 0,
        },
        Call::ReleaseFull { caller, now } => match release_full_tr(cfg, v, caller, now).1 {
            Ok(p) => payout_total(p),
            Err(_) => 0,
        },
        Call::Refund { now } => match refund_tr(v, now).1 {
            Ok(p) => payout_total(p),
            Err(_) => 0,
        },
        Call::ResolveDispute { caller, verdict, split_bps, now } => match resolve_dispute_tr(
            cfg,
            v,
            caller,
            verdict,
            split_bps,
            now,
        ).1 {
            Ok(p) => payout_total(p),
            Err(_) => 0,
        },
        _ => 0,
    }
}

/// **Transition closure, one step.**  Whatever the record and the call, the
/// state after an entrypoint either stays put or follows an edge of the
/// transition table; no hypothesis is needed, because every transition
/// function checks its source state before moving.
pub proof fn lemma_step_follows_table(cfg: ContractConfig, v: EscrowView, c: Call)
    ensures
        transition_ok(v.state, step_view(cfg, v, c).state),
{
}

/// **One step of the engine is sound.**  A call on a well-formed record
/// leaves a well-formed record with timestamps at or before the call time,
/// follows the transition table, and conserves value: what flows in plus
/// what was outstanding equals what flows out plus what remains outstanding.
pub proof fn lemma_step(cfg: ContractConfig, v: EscrowView, c: Call)
    requires
        config_valid(cfg),
        escrow_wf(v),
        call_valid(c),
        ts_bounded(v, call_time(c)),
    ensures
        escrow_wf(step_view(cfg, v, c)),
        ts_bounded(step_view(cfg, v, c), call_time(c)),
        transition_ok(v.state, step_view(cfg, v, c).state),
        step_inflow(cfg, v, c) + outstanding(v) == step_outflow(cfg, v, c) + outstanding(
            step_view(cfg, v, c),
        ),
{
    match c {
        Call::Fund { caller, attached, now } => lemma_fund_tr(v, caller, attached, now),
        Call::CreateMilestone { caller, description, amount, now } => lemma_create_milestone_tr(
            cfg,
            v,
            caller,
            description,
            amount,
            now,
        ),
        Call::ApproveMilestone { caller, id, now } => lemma_approve_milestone_tr(v, caller, id, now),
        Call::ReleaseMilestone { caller, id, now } => lemma_release_milestone_tr(
            cfg,
            v,
            caller,
            id,
            now,
        ),
        Call::ReleaseFull { caller, now } => lemma_release_full_tr(cfg, v, caller, now),
        Call::Refund { now } => lemma_refund_tr(v, now),
        Call::RaiseDispute { caller, now } => lemma_raise_dispute_tr(v, caller, now),
        Call::ResolveDispute { caller, verdict, split_bps, now } => lemma_resolve_dispute_tr(
            cfg,
            v,
            caller,
            verdict,
            split_bps,
            now,
        ),
    }
}

/// The record after a sequence of entrypoint invocations.
pub open spec fn run(cfg: ContractConfig, v0: EscrowView, calls: Seq<Call>) -> EscrowView
    decreases calls.len(),
{
    if calls.len() == 0 {
        v0
    } else {
        step_view(cfg, run(cfg, v0, calls.drop_last()), calls.last())
    }
}

/// Total value taken into custody over a sequence of calls.
pub open spec fn run_inflow(cfg: ContractConfig, v0: EscrowView, calls: Seq<Call>) -> int
    decreases calls.len(),
{
    if calls.len() == 0 {
        0
    } else {
        run_inflow(cfg, v0, calls.drop_last()) + step_inflow(
            cfg,
            run(cfg, v0, calls.drop_last()),
            calls.last(),
        )
    }
}

/// Total value paid out of custody over a sequence of calls.
pub open spec fn run_outflow(cfg: ContractConfig, v0: EscrowView, calls: Seq<Call>) -> int
    decreases calls.len(),
{
    if calls.len() == 0 {
        0
    } else {
        run_outflow(cfg, v0, calls.drop_last()) + step_outflow(
            cfg,
            run(cfg, v0, calls.drop_last()),
            calls.last(),
        )
    }
}

/// Every call of the sequence is one the entrypoints accept.
pub open spec fn calls_valid(calls: Seq<Call>) -> bool {
    forall|i: int| 0 <= i < calls.len() ==> call_valid(#[trigger] calls[i])
}

/// The ledger clock never runs backwards: the calls' times are
/// non-decreasing and never precede the record's existing timestamps.
pub open spec fn times_monotone(v0: EscrowView, calls: Seq<Call>) -> bool {
    &&& (forall|i: int| 0 <= i < calls.len() ==> ts_bounded(v0, call_time(#[trigger] calls[i])))
    &&& (forall|i: int, j: int|
        #![trigger calls[i], calls[j]]
        0 <= i <= j < calls.len() ==> call_time(calls[i]) <= call_time(calls[j]))
}

/// A bound on the record's timestamps also holds at any later time.
pub proof fn lemma_ts_bounded_widen(v: EscrowView, t1: u64, t2: u64)
    requires
        ts_bounded(v, t1),
        t1 <= t2,
    ensures
        ts_bounded(v, t2),
{
}

/// **Conservation and well-formedness over every call sequence.**  From a
/// well-formed record, any sequence of entrypoint invocations under a
/// non-decreasing clock leaves a well-formed record, and conserves value:
/// everything taken into custody plus what was outstanding at the start
/// equals everything paid out plus what is still outstanding.
pub proof fn lemma_run(cfg: ContractConfig, v0: EscrowView, calls: Seq<Call>)
    requires
        config_valid(cfg),
        escrow_wf(v0),
        calls_valid(calls),
        times_monotone(v0, calls),
    ensures
        escrow_wf(run(cfg, v0, calls)),
        calls.len() > 0 ==> ts_bounded(run(cfg, v0, calls), call_time(calls.last())),
        run_inflow(cfg, v0, calls) + outstanding(v0) == run_outflow(cfg, v0, calls) + outstanding(
            run(cfg, v0, calls),
        ),
    decreases calls.len(),
{
    if calls.len() > 0 {
        let prefix = calls.drop_last();
        let c = calls.last();
        assert(calls_valid(prefix)) by {
            assert(forall|i: int| 0 <= i < prefix.len() ==> prefix[i] == calls[i]);
        }
        assert(times_monotone(v0, prefix)) by {
            assert(forall|i: int| 0 <= i < prefix.len() ==> prefix[i] == calls[i]);
        }
        lemma_run(cfg, v0, prefix);
        let v1 = run(cfg, v0, prefix);
        if prefix.len() == 0 {
            assert(ts_bounded(v1, call_time(c)));
        } else {
            assert(prefix.last() == calls[calls.len() - 2]);
            assert(call_time(calls[calls.len() - 2]) <= call_time(calls[calls.len() - 1]));
            lemma_ts_bounded_widen(v1, call_time(prefix.last()), call_time(c));
        }
        lemma_step(cfg, v1, c);
    }
}

/// **Transition closure over every call sequence.**  Along any sequence of
/// entrypoint invocations, each step's state change follows the transition
/// table.
pub proof fn lemma_run_follows_table(cfg: ContractConfig, v0: EscrowView, calls: Seq<Call>, i: int)
    requires
        0 <= i < calls.len(),
    ensures
        transition_ok(
            run(cfg, v0, calls.take(i)).state,
            run(cfg, v0, calls.take(i + 1)).state,
        ),
{
    assert(calls.take(i + 1).drop_last() =~= calls.take(i));
    lemma_step_follows_table(cfg, run(cfg, v0, calls.take(i)), calls[i]);
}

/// **Conservation at rest.**  In every well-formed record the net amount
/// paid towards the freelancer, the fees collected, and the unreleased
/// residual are each non-negative and together partition the committed
/// amount.
pub proof fn lemma_conservation(v: EscrowView)
    requires
        escrow_wf(v),
    ensures
        0 <= v.released_amount - v.fee_collected,
        0 <= v.fee_collected,
        0 <= v.amount - v.released_amount,
        (v.released_amount - v.fee_collected) + v.fee_collected + (v.amount - v.released_amount)
            == v.amount,
{
}

/// **No double release.**  After a successful `release_milestone` that
/// leaves the escrow funded, releasing the same id again — by any authorized
/// caller, at any later time, under any configuration — fails with
/// `MilestoneAlreadyReleased` and changes nothing, in particular not the
/// released total.  (If the first release completed the escrow, the record
/// is no longer `Funded` and the second call fails with `InvalidTransition`
/// instead.)
pub proof fn lemma_no_double_release(
    cfg: ContractConfig,
    cfg2: ContractConfig,
    v: EscrowView,
    caller: AccountId,
    caller2: AccountId,
    id: u32,
    now: u64,
    now2: u64,
)
    requires
        escrow_wf(v),
        release_milestone_tr(cfg, v, caller, id, now).1 is Ok,
        release_milestone_tr(cfg, v, caller, id, now).0.state is Funded,
        client_or_arbitrator(release_milestone_tr(cfg, v, caller, id, now).0, caller2),
    ensures
        ({
            let v1 = release_milestone_tr(cfg, v, caller, id, now).0;
            let (v2, r2) = release_milestone_tr(cfg2, v1, caller2, id, now2);
            &&& r2 == Err::<PayoutView, EscrowError>(EscrowError::MilestoneAlreadyReleased)
            &&& v2 == v1
            &&& v2.released_amount == v1.released_amount
        }),
{
}

/// **Milestone sum bound.**  A milestone that would push the ledger's
/// running sum past the escrow amount is never appended: the call fails,
/// and when every other precondition holds the failure is `AmountMismatch`.
pub proof fn lemma_milestone_sum_bound(
    cfg: ContractConfig,
    v: EscrowView,
    caller: AccountId,
    description: String,
    amount: i128,
    now: u64,
)
    requires
        milestone_sum(v.milestones) + amount > v.amount,
    ensures
        create_milestone_tr(cfg, v, caller, description, amount, now).0 == v,
        create_milestone_tr(cfg, v, caller, description, amount, now).1 is Err,
        (caller == v.client && (v.state is Created || v.state is Funded) && v.released_amount <= 0
            && amount > 0 && v.milestones.len() < cfg.max_milestones)
            ==> create_milestone_tr(cfg, v, caller, description, amount, now).1 == Err::<
            u32,
            EscrowError,
        >(EscrowError::AmountMismatch),
{
}

/// **The automatic full release settles an exhausted ledger.**  The state
/// machine moves a funded escrow to `Released` on a milestone release only
/// once the released total reaches the committed amount; in a well-formed
/// funded record that can only happen when every milestone is released.
pub proof fn lemma_auto_release_means_all_released(v: EscrowView)
    requires
        escrow_wf(v),
        v.state is Funded,
        v.released_amount == v.amount,
    ensures
        forall|i: int| 0 <= i < v.milestones.len() ==> (#[trigger] v.milestones[i]).released,
{
    let s = v.milestones;
    assert forall|i: int| 0 <= i < s.len() implies 0 < (#[trigger] s[i]).amount by {
        assert(milestone_ok(s[i], i));
    }
    lemma_milestone_sums_nonneg(s);
    assert(released_sum(s) == milestone_sum(s));
    lemma_full_release_means_all_released(s);
}

/// **Dispute terminality.**  Once a dispute has been resolved the verdict is
/// final: no `raise_dispute` or `resolve_dispute` call succeeds any more,
/// whoever calls and whatever the arguments, and the record is unchanged.
pub proof fn lemma_dispute_terminality(
    cfg: ContractConfig,
    v: EscrowView,
    caller: AccountId,
    verdict: DisputeResult,
    split_bps: u32,
    now: u64,
)
    requires
        escrow_wf(v),
        v.dispute_result is Some,
    ensures
        raise_dispute_tr(v, caller, now).1 is Err,
        raise_dispute_tr(v, caller, now).0 == v,
        resolve_dispute_tr(cfg, v, caller, verdict, split_bps, now).1 is Err,
        resolve_dispute_tr(cfg, v, caller, verdict, split_bps, now).0 == v,
{
}

/// **A resolved verdict survives every call.**  Whatever entrypoint runs on
/// a record whose dispute is resolved, the stored verdict and resolution
/// time are unchanged.
pub proof fn lemma_resolution_final(cfg: ContractConfig, v: EscrowView, c: Call)
    requires
        escrow_wf(v),
        v.dispute_result is Some,
    ensures
        step_view(cfg, v, c).dispute_result == v.dispute_result,
        step_view(cfg, v, c).resolved_at == v.resolved_at,
{
}

} // verus!
