//! The escrow state machine: creation, funding, full release, timeout
//! refund, dispute raising and dispute resolution, plus the read-only
//! snapshots.  Each entrypoint is specified by a transition function over
//! the record's view, preserves the escrow invariant, follows the
//! transition table, and conserves value: the payout it instructs equals
//! the reduction of the outstanding balance.

use vstd::prelude::*;

use crate::dispute::{freelancer_share, lemma_share_in_range, split_residual};
use crate::fee::{compute_fee, fee_of, lemma_fee_in_range, BPS_DENOM};
use crate::types::{
    config_valid, escrow_wf, milestone_ok, outstanding, payout_res_view, payout_total,
    state_label, transition_ok, ts_bounded, AccountId, ContractConfig, DisputeResult, EscrowData,
    EscrowDataExport, EscrowError, EscrowState, EscrowSummary, EscrowView, Payout, PayoutView,
};

verus! {

/// The record `create` produces: a fresh, unfunded escrow holding the given
/// parties and amount, with an empty milestone ledger and audit log.
pub open spec fn create_tr(
    cfg: ContractConfig,
    client: AccountId,
    freelancer: AccountId,
    arbitrator: Option<AccountId>,
    token: Option<AccountId>,
    fee_manager: AccountId,
    amount: i128,
    timeout_secs: Option<u64>,
    now: u64,
) -> Result<EscrowView, EscrowError> {
    if amount < cfg.min_escrow_amount || amount > cfg.max_escrow_amount {
        Err(EscrowError::InsufficientValue)
    } else {
        Ok(
            EscrowView {
                client,
                freelancer,
                arbitrator,
                token,
                amount: amount as int,
                state: EscrowState::Created,
                dispute_result: None,
                created_at: now,
                funded_at: None,
                released_at: None,
                disputed_at: None,
                resolved_at: None,
                timeout_secs,
                milestones: Seq::empty(),
                milestone_history: Seq::empty(),
                released_amount: 0,
                fee_manager,
                fee_collected: 0,
                net_amount: amount as int,
            },
        )
    }
}

/// The transition `fund` performs: the client attaches value equal to the
/// committed amount and the escrow moves from `Created` to `Funded`.
pub open spec fn fund_tr(v: EscrowView, caller: AccountId, attached: i128, now: u64) -> (
    EscrowView,
    Result<(), EscrowError>,
) {
    if caller != v.client {
        (v, Err(EscrowError::Unauthorized))
    } else if v.state is Funded {
        (v, Err(EscrowError::AlreadyFunded))
    } else if !(v.state is Created) {
        (v, Err(EscrowError::InvalidTransition))
    } else if attached != v.amount {
        (v, Err(EscrowError::InsufficientValue))
    } else {
        (EscrowView { state: EscrowState::Funded, funded_at: Some(now), ..v }, Ok(()))
    }
}

/// `fund` keeps the record well formed, follows the transition table, and
/// on success takes custody of exactly the attached value.
pub proof fn lemma_fund_tr(v: EscrowView, caller: AccountId, attached: i128, now: u64)
    requires
        escrow_wf(v),
        ts_bounded(v, now),
    ensures
        ({
            let (v2, r) = fund_tr(v, caller, attached, now);
            &&& escrow_wf(v2)
            &&& ts_bounded(v2, now)
            &&& transition_ok(v.state, v2.state)
            &&& r is Err ==> v2 == v
            &&& r is Ok ==> outstanding(v2) - outstanding(v) == attached
        }),
{
}

/// The transition `release_full` performs: on an escrow without milestones
/// the client releases the whole amount at once; the fee is deducted and the
/// net amount paid to the freelancer.  An escrow with a milestone ledger has
/// no full release: its release path is per milestone.
pub open spec fn release_full_tr(cfg: ContractConfig, v: EscrowView, caller: AccountId, now: u64) -> (
    EscrowView,
    Result<PayoutView, EscrowError>,
) {
    if caller != v.client {
        (v, Err(EscrowError::Unauthorized))
    } else if !(v.state is Funded) {
        (v, Err(EscrowError::InvalidTransition))
    } else if v.milestones.len() > 0 {
        (v, Err(EscrowError::InvalidTransition))
    } else {
        let fee = fee_of(v.amount, cfg.fee_percentage as int);
        let collected2 = v.fee_collected + fee;
        let v2 = EscrowView {
            state: EscrowState::Released,
            released_at: Some(now),
            released_amount: v.amount,
            fee_collected: collected2,
            net_amount: v.amount - collected2,
            ..v
        };
        (v2, Ok(PayoutView { to_freelancer: v.amount - fee, to_client: 0, fee }))
    }
}

/// `release_full` keeps the record well formed, follows the transition
/// table, and conserves value.
pub proof fn lemma_release_full_tr(cfg: ContractConfig, v: EscrowView, caller: AccountId, now: u64)
    requires
        escrow_wf(v),
        ts_bounded(v, now),
        config_valid(cfg),
    ensures
        ({
            let (v2, r) = release_full_tr(cfg, v, caller, now);
            &&& escrow_wf(v2)
            &&& ts_bounded(v2, now)
            &&& transition_ok(v.state, v2.state)
            &&& r is Err ==> v2 == v
            &&& r matches Ok(p) ==> payout_total(p) == outstanding(v) - outstanding(v2)
                && p.to_freelancer >= 0 && p.to_client >= 0 && p.fee >= 0
        }),
{
    let (v2, r) = release_full_tr(cfg, v, caller, now);
    if r is Ok {
        lemma_fee_in_range(v.amount, cfg.fee_percentage as int);
    }
}

/// The transition `refund` performs: once the grace period has elapsed on a
/// still-funded, undisputed escrow, any caller may return the unreleased
/// residual to the client; released milestones and their fees are not
/// reversed.
pub open spec fn refund_tr(v: EscrowView, now: u64) -> (
    EscrowView,
    Result<PayoutView, EscrowError>,
) {
    if !(v.state is Funded) {
        (v, Err(EscrowError::InvalidTransition))
    } else {
        match (v.timeout_secs, v.funded_at) {
            (Some(t), Some(f)) => if now < f + t {
                (v, Err(EscrowError::TimeoutNotReached))
            } else {
                let residual = v.amount - v.released_amount;
                if residual == 0 {
                    (v, Err(EscrowError::NoResidualToSettle))
                } else {
                    let v2 = EscrowView { state: EscrowState::Refunded, ..v };
                    (v2, Ok(PayoutView { to_freelancer: 0, to_client: residual, fee: 0 }))
                }
            },
            _ => (v, Err(EscrowError::TimeoutNotReached)),
        }
    }
}

/// `refund` keeps the record well formed, follows the transition table, and
/// conserves value: the refund equals the whole outstanding balance.
pub proof fn lemma_refund_tr(v: EscrowView, now: u64)
    requires
        escrow_wf(v),
        ts_bounded(v, now),
    ensures
        ({
            let (v2, r) = refund_tr(v, now);
            &&& escrow_wf(v2)
            &&& ts_bounded(v2, now)
            &&& transition_ok(v.state, v2.state)
            &&& r is Err ==> v2 == v
            &&& r matches Ok(p) ==> payout_total(p) == outstanding(v) - outstanding(v2)
                && p.to_freelancer >= 0 && p.to_client >= 0 && p.fee >= 0
        }),
{
}

/// The transition `raise_dispute` performs: the client or the freelancer
/// moves a funded escrow with an arbitrator into `Disputed`.
pub open spec fn raise_dispute_tr(v: EscrowView, caller: AccountId, now: u64) -> (
    EscrowView,
    Result<(), EscrowError>,
) {
    if !(caller == v.client || caller == v.freelancer) {
        (v, Err(EscrowError::Unauthorized))
    } else if !(v.state is Funded) {
        (v, Err(EscrowError::InvalidTransition))
    } else if v.arbitrator is None {
        (v, Err(EscrowError::ArbitratorRequired))
    } else {
        (EscrowView { state: EscrowState::Disputed, disputed_at: Some(now), ..v }, Ok(()))
    }
}

/// `raise_dispute` keeps the record well formed, follows the transition
/// table, and moves no funds.
pub proof fn lemma_raise_dispute_tr(v: EscrowView, caller: AccountId, now: u64)
    requires
        escrow_wf(v),
        ts_bounded(v, now),
    ensures
        ({
            let (v2, r) = raise_dispute_tr(v, caller, now);
            &&& escrow_wf(v2)
            &&& ts_bounded(v2, now)
            &&& transition_ok(v.state, v2.state)
            &&& r is Err ==> v2 == v
            &&& outstanding(v2) == outstanding(v)
        }),
{
}

/// The transition `resolve_dispute` performs: the arbitrator settles the
/// unreleased residual per the verdict.  The freelancer's share is released
/// net of its fee, the client's share is returned untaxed; the verdict and
/// the resolution time become final, and the record moves to `Released` if
/// the freelancer received anything, else to `Refunded`.
pub open spec fn resolve_dispute_tr(
    cfg: ContractConfig,
    v: EscrowView,
    caller: AccountId,
    verdict: DisputeResult,
    split_bps: u32,
    now: u64,
) -> (EscrowView, Result<PayoutView, EscrowError>) {
    if v.arbitrator != Some(caller) {
        (v, Err(EscrowError::Unauthorized))
    } else if !(v.state is Disputed) {
        (v, Err(EscrowError::DisputeNotActive))
    } else {
        let residual = v.amount - v.released_amount;
        if residual == 0 {
            (v, Err(EscrowError::NoResidualToSettle))
        } else {
            let share = freelancer_share(residual, verdict, split_bps as int);
            let fee = fee_of(share, cfg.fee_percentage as int);
            let collected2 = v.fee_collected + fee;
            let v2 = EscrowView {
                state: if share > 0 {
                    EscrowState::Released
                } else {
                    EscrowState::Refunded
                },
                released_at: if share > 0 {
                    Some(now)
                } else {
                    v.released_at
                },
                dispute_result: Some(verdict),
                resolved_at: Some(now),
                released_amount: v.released_amount + share,
                fee_collected: collected2,
                net_amount: v.amount - collected2,
                ..v
            };
            (v2, Ok(PayoutView { to_freelancer: share - fee, to_client: residual - share, fee }))
        }
    }
}

/// `resolve_dispute` keeps the record well formed, follows the transition
/// table, conserves value, and makes the verdict final.
pub proof fn lemma_resolve_dispute_tr(
    cfg: ContractConfig,
    v: EscrowView,
    caller: AccountId,
    verdict: DisputeResult,
    split_bps: u32,
    now: u64,
)
    requires
        escrow_wf(v),
        ts_bounded(v, now),
        config_valid(cfg),
        split_bps <= BPS_DENOM,
    ensures
        ({
            let (v2, r) = resolve_dispute_tr(cfg, v, caller, verdict, split_bps, now);
            &&& escrow_wf(v2)
            &&& ts_bounded(v2, now)
            &&& transition_ok(v.state, v2.state)
            &&& r is Err ==> v2 == v
            &&& r is Ok ==> v2.dispute_result == Some(verdict)
            &&& r matches Ok(p) ==> payout_total(p) == outstanding(v) - outstanding(v2)
                && p.to_freelancer >= 0 && p.to_client >= 0 && p.fee >= 0
        }),
{
    let (v2, r) = resolve_dispute_tr(cfg, v, caller, verdict, split_bps, now);
    if r is Ok {
        let residual = v.amount - v.released_amount;
        let share = freelancer_share(residual, verdict, split_bps as int);
        lemma_share_in_range(residual, verdict, split_bps as int);
        lemma_fee_in_range(share, cfg.fee_percentage as int);
    }
}

impl EscrowData {
    /// Create a new escrow agreement between `client` and `freelancer` over
    /// `amount`, in state `Created`.  The amount must lie within the
    /// configured bounds.
    pub fn create(
        cfg: &ContractConfig,
        client: AccountId,
        freelancer: AccountId,
        arbitrator: Option<AccountId>,
        token: Option<AccountId>,
        fee_manager: AccountId,
        amount: i128,
        timeout_secs: Option<u64>,
        now: u64,
    ) -> (r: Result<EscrowData, EscrowError>)
        requires
            config_valid(*cfg),
        ensures
            ({
                let res = create_tr(
                    *cfg,
                    client,
                    freelancer,
                    arbitrator,
                    token,
                    fee_manager,
                    amount,
                    timeout_secs,
                    now,
                );
                match (r, res) {
                    (Ok(e), Ok(v)) => e@ == v && escrow_wf(e@) && ts_bounded(e@, now),
                    (Err(a), Err(b)) => a == b,
                    _ => false,
                }
            }),
    {
        if amount < cfg.min_escrow_amount || amount > cfg.max_escrow_amount {
            return Err(EscrowError::InsufficientValue);
        }
        let e = EscrowData {
            client,
            freelancer,
            arbitrator,
            token,
            amount,
            state: EscrowState::Created,
            dispute_result: None,
            created_at: now,
            funded_at: None,
            released_at: None,
            disputed_at: None,
            resolved_at: None,
            timeout_secs,
            milestones: Vec::new(),
            milestone_history: Vec::new(),
            released_amount: 0,
            fee_manager,
            fee_collected: 0,
            net_amount: amount,
        };
        proof {
            let v = create_tr(
                *cfg,
                client,
                freelancer,
                arbitrator,
                token,
                fee_manager,
                amount,
                timeout_secs,
                now,
            )->Ok_0;
            assert(e@ =~= v);
        }
        Ok(e)
    }

    /// Fund the escrow: the client attaches value equal to the committed
    /// amount and the record moves from `Created` to `Funded`.
    pub fn fund(&mut self, caller: AccountId, attached: i128, now: u64) -> (r: Result<
        (),
        EscrowError,
    >)
        requires
            escrow_wf(old(self)@),
            ts_bounded(old(self)@, now),
        ensures
            ({
                let (v2, res) = fund_tr(old(self)@, caller, attached, now);
                final(self)@ == v2 && r == res
            }),
            escrow_wf(final(self)@),
            ts_bounded(final(self)@, now),
            r is Err ==> final(self)@ == old(self)@,
            transition_ok(old(self)@.state, final(self)@.state),
            r is Ok ==> outstanding(final(self)@) - outstanding(old(self)@) == attached,
    {
        proof {
            lemma_fund_tr(old(self)@, caller, attached, now);
        }
        if caller != self.client {
            return Err(EscrowError::Unauthorized);
        }
        if self.state == EscrowState::Funded {
            return Err(EscrowError::AlreadyFunded);
        }
        if !(self.state == EscrowState::Created) {
            return Err(EscrowError::InvalidTransition);
        }
        if attached != self.amount {
            return Err(EscrowError::InsufficientValue);
        }
        self.state = EscrowState::Funded;
        self.funded_at = Some(now);
        proof {
            let (v2, _) = fund_tr(old(self)@, caller, attached, now);
            assert(self@ =~= v2);
        }
        Ok(())
    }

    /// Release the whole escrow amount at once: valid only from `Funded` on
    /// an escrow without milestones.  Deducts the fee and instructs the net
    /// payout to the freelancer.
    pub fn release_full(&mut self, cfg: &ContractConfig, caller: AccountId, now: u64) -> (r: Result<
        Payout,
        EscrowError,
    >)
        requires
            config_valid(*cfg),
            escrow_wf(old(self)@),
            ts_bounded(old(self)@, now),
        ensures
            ({
                let (v2, res) = release_full_tr(*cfg, old(self)@, caller, now);
                final(self)@ == v2 && payout_res_view(r) == res
            }),
            escrow_wf(final(self)@),
            ts_bounded(final(self)@, now),
            r is Err ==> final(self)@ == old(self)@,
            transition_ok(old(self)@.state, final(self)@.state),
            r matches Ok(p) ==> payout_total(p@) == outstanding(old(self)@) - outstanding(
                final(self)@,
            ),
    {
        proof {
            lemma_release_full_tr(*cfg, old(self)@, caller, now);
        }
        if caller != self.client {
            return Err(EscrowError::Unauthorized);
        }
        if !(self.state == EscrowState::Funded) {
            return Err(EscrowError::InvalidTransition);
        }
        if self.milestones.len() > 0 {
            return Err(EscrowError::InvalidTransition);
        }
        let (fee, net) = compute_fee(self.amount, cfg.fee_percentage);
        self.state = EscrowState::Released;
        self.released_at = Some(now);
        self.released_amount = self.amount;
        self.fee_collected = self.fee_collected + fee;
        self.net_amount = self.amount - self.fee_collected;
        proof {
            let (v2, _) = release_full_tr(*cfg, old(self)@, caller, now);
            assert(self@ =~= v2);
        }
        Ok(Payout { to_freelancer: net, to_client: 0, fee })
    }

    /// Refund the unreleased residual to the client once the grace period
    /// has elapsed.  Valid only from `Funded` (so never under an active
    /// dispute); any caller may trigger it, which is why no caller is taken.
    /// Released milestones and their fees are not reversed.
    pub fn refund(&mut self, now: u64) -> (r: Result<Payout, EscrowError>)
        requires
            escrow_wf(old(self)@),
            ts_bounded(old(self)@, now),
        ensures
            ({
                let (v2, res) = refund_tr(old(self)@, now);
                final(self)@ == v2 && payout_res_view(r) == res
            }),
            escrow_wf(final(self)@),
            ts_bounded(final(self)@, now),
            r is Err ==> final(self)@ == old(self)@,
            transition_ok(old(self)@.state, final(self)@.state),
            r matches Ok(p) ==> payout_total(p@) == outstanding(old(self)@) - outstanding(
                final(self)@,
            ),
    {
        proof {
            lemma_refund_tr(old(self)@, now);
        }
        if !(self.state == EscrowState::Funded) {
            return Err(EscrowError::InvalidTransition);
        }
        let timeout = match self.timeout_secs {
            Some(t) => t,
            None => {
                return Err(EscrowError::TimeoutNotReached);
            },
        };
        let funded = match self.funded_at {
            Some(f) => f,
            None => {
                return Err(EscrowError::TimeoutNotReached);
            },
        };
        if now - funded < timeout {
            return Err(EscrowError::TimeoutNotReached);
        }
        let residual = self.amount - self.released_amount;
        if residual == 0 {
            return Err(EscrowError::NoResidualToSettle);
        }
        self.state = EscrowState::Refunded;
        proof {
            let (v2, _) = refund_tr(old(self)@, now);
            assert(self@ =~= v2);
        }
        Ok(Payout { to_freelancer: 0, to_client: residual, fee: 0 })
    }

    /// Raise a dispute: the client or the freelancer moves a funded escrow
    /// into `Disputed`.  Requires an arbitrator to be set.
    pub fn raise_dispute(&mut self, caller: AccountId, now: u64) -> (r: Result<(), EscrowError>)
        requires
            escrow_wf(old(self)@),
            ts_bounded(old(self)@, now),
        ensures
            ({
                let (v2, res) = raise_dispute_tr(old(self)@, caller, now);
                final(self)@ == v2 && r == res
            }),
            escrow_wf(final(self)@),
            ts_bounded(final(self)@, now),
            r is Err ==> final(self)@ == old(self)@,
            transition_ok(old(self)@.state, final(self)@.state),
    {
        proof {
            lemma_raise_dispute_tr(old(self)@, caller, now);
        }
        if !(caller == self.client || caller == self.freelancer) {
            return Err(EscrowError::Unauthorized);
        }
        if !(self.state == EscrowState::Funded) {
            return Err(EscrowError::InvalidTransition);
        }
        if self.arbitrator.is_none() {
            return Err(EscrowError::ArbitratorRequired);
        }
        self.state = EscrowState::Disputed;
        self.disputed_at = Some(now);
        proof {
            let (v2, _) = raise_dispute_tr(old(self)@, caller, now);
            assert(self@ =~= v2);
        }
        Ok(())
    }

    /// Resolve an active dispute: the arbitrator settles the unreleased
    /// residual per the verdict.  The freelancer's share is paid net of its
    /// fee, the client's share is returned untaxed, and the verdict becomes
    /// final.
    pub fn resolve_dispute(
        &mut self,
        cfg: &ContractConfig,
        caller: AccountId,
        verdict: DisputeResult,
        split_bps: u32,
        now: u64,
    ) -> (r: Result<Payout, EscrowError>)
        requires
            config_valid(*cfg),
            split_bps <= BPS_DENOM,
            escrow_wf(old(self)@),
            ts_bounded(old(self)@, now),
        ensures
            ({
                let (v2, res) = resolve_dispute_tr(*cfg, old(self)@, caller, verdict, split_bps, now);
                final(self)@ == v2 && payout_res_view(r) == res
            }),
            escrow_wf(final(self)@),
            ts_bounded(final(self)@, now),
            r is Err ==> final(self)@ == old(self)@,
            transition_ok(old(self)@.state, final(self)@.state),
            r matches Ok(p) ==> payout_total(p@) == outstanding(old(self)@) - outstanding(
                final(self)@,
            ),
    {
        proof {
            lemma_resolve_dispute_tr(*cfg, old(self)@, caller, verdict, split_bps, now);
        }
        let authorized = match self.arbitrator {
            Some(a) => a == caller,
            None => false,
        };
        if !authorized {
            return Err(EscrowError::Unauthorized);
        }
        if !(self.state == EscrowState::Disputed) {
            return Err(EscrowError::DisputeNotActive);
        }
        let residual = self.amount - self.released_amount;
        if residual == 0 {
            return Err(EscrowError::NoResidualToSettle);
        }
        let (share, to_client) = split_residual(residual, verdict, split_bps as i128);
        let (fee, net) = compute_fee(share, cfg.fee_percentage);
        self.dispute_result = Some(verdict);
        self.resolved_at = Some(now);
        self.released_amount = self.released_amount + share;
        self.fee_collected = self.fee_collected + fee;
        self.net_amount = self.amount - self.fee_collected;
        if share > 0 {
            self.state = EscrowState::Released;
            self.released_at = Some(now);
        } else {
            self.state = EscrowState::Refunded;
        }
        proof {
            let (v2, _) = resolve_dispute_tr(*cfg, old(self)@, caller, verdict, split_bps, now);
            assert(self@ =~= v2);
        }
        Ok(Payout { to_freelancer: net, to_client, fee })
    }

    /// A read-only snapshot of the record.
    pub fn get_escrow(&self) -> (r: EscrowData)
        ensures
            r@ == self@,
    {
        self.clone()
    }

    /// A read-only summary of the record's essentials.
    pub fn get_summary(&self) -> (s: EscrowSummary)
        requires
            escrow_wf(self@),
        ensures
            s.client == self@.client,
            s.freelancer == self@.freelancer,
            s.amount as int == self@.amount,
            s.status@ == state_label(self@.state),
            s.created_at == self@.created_at,
            s.milestone_count == self@.milestones.len(),
    {
        proof {
            if self@.milestones.len() > 0 {
                assert(milestone_ok(
                    self@.milestones[self@.milestones.len() - 1],
                    self@.milestones.len() - 1,
                ));
            }
        }
        EscrowSummary {
            client: self.client,
            freelancer: self.freelancer,
            amount: self.amount,
            status: self.state.label(),
            created_at: self.created_at,
            milestone_count: self.milestones.len() as u32,
        }
    }

    /// A full export of the record for off-chain audit, stamped with the
    /// export time and format version.
    pub fn export(&self, contract_id: String, now: u64) -> (e: EscrowDataExport)
        ensures
            e.contract_id == contract_id,
            e.escrow_data@ == self@,
            e.milestones@ == self@.milestones,
            e.milestone_history@ == self@.milestone_history,
            e.export_timestamp == now,
            e.export_version@ == "1.0"@,
    {
        EscrowDataExport {
            contract_id,
            escrow_data: self.clone(),
            milestones: crate::types::clone_milestones(&self.milestones),
            milestone_history: crate::types::clone_history(&self.milestone_history),
            export_timestamp: now,
            export_version: "1.0".to_owned(),
        }
    }
}

} // verus!
