//! The milestone ledger: creation, approval and partial release of
//! milestones, each specified by a transition function over the record's
//! view and verified to preserve the escrow invariant.

use vstd::prelude::*;
use vstd::pervasive::VecAdditionalExecFns;

use crate::fee::{compute_fee, fee_of, MAX_GROSS};
use crate::types::{
    config_valid, escrow_wf, lemma_element_le_sum, lemma_milestone_sums_nonneg, lemma_sum_take_le,
    lemma_sum_take_step, lemma_sums_push, lemma_sums_update, milestone_ok, milestone_sum,
    outstanding, payout_res_view, payout_total, transition_ok, ts_bounded, AccountId,
    ContractConfig, EscrowData, EscrowError, EscrowState, EscrowView, Milestone, MilestoneAction,
    MilestoneHistory, Payout, PayoutView,
};

verus! {

/// Whether `caller` is the client or the configured arbitrator.
pub open spec fn client_or_arbitrator(v: EscrowView, caller: AccountId) -> bool {
    caller == v.client || v.arbitrator == Some(caller)
}

impl EscrowData {
    /// Whether `caller` is the client or the configured arbitrator.
    fn is_client_or_arbitrator(&self, caller: AccountId) -> (authorized: bool)
        ensures
            authorized == client_or_arbitrator(self@, caller),
    {
        caller == self.client || (match self.arbitrator {
            Some(a) => a == caller,
            None => false,
        })
    }
}

/// Sum of all milestone amounts of the ledger, computed for the running-sum
/// bound of `create_milestone`.
pub fn milestone_total(milestones: &Vec<Milestone>) -> (total: i128)
    requires
        forall|i: int| 0 <= i < milestones@.len() ==> 0 <= (#[trigger] milestones@[i]).amount,
        milestone_sum(milestones@) <= MAX_GROSS,
    ensures
        total == milestone_sum(milestones@),
{
    let ghost s = milestones@;
    let mut total: i128 = 0;
    let mut j: usize = 0;
    proof {
        assert(s.take(0) =~= Seq::<Milestone>::empty());
    }
    while j < milestones.len()
        invariant
            0 <= j <= s.len(),
            milestones@ == s,
            total == milestone_sum(s.take(j as int)),
            forall|i: int| 0 <= i < s.len() ==> 0 <= (#[trigger] s[i]).amount,
            milestone_sum(s) <= MAX_GROSS,
        decreases s.len() - j,
    {
        proof {
            lemma_sum_take_step(s, j as int);
            lemma_sum_take_le(s, j + 1);
            lemma_milestone_sums_nonneg(s.take(j + 1));
        }
        total = total + milestones[j].amount;
        j = j + 1;
    }
    proof {
        assert(s.take(s.len() as int) =~= s);
    }
    total
}

/// The transition `create_milestone` performs: on success the record gains
/// one unapproved, unreleased milestone with the next sequential id, and the
/// audit log one `Created` entry; on failure the record is unchanged.
pub open spec fn create_milestone_tr(
    cfg: ContractConfig,
    v: EscrowView,
    caller: AccountId,
    description: String,
    amount: i128,
    now: u64,
) -> (EscrowView, Result<u32, EscrowError>) {
    if caller != v.client {
        (v, Err(EscrowError::Unauthorized))
    } else if !(v.state is Created || v.state is Funded) {
        (v, Err(EscrowError::InvalidTransition))
    } else if v.released_amount > 0 {
        (v, Err(EscrowError::MilestoneAlreadyReleased))
    } else if amount <= 0 {
        (v, Err(EscrowError::InsufficientValue))
    } else if v.milestones.len() >= cfg.max_milestones {
        (v, Err(EscrowError::MaxMilestonesExceeded))
    } else if milestone_sum(v.milestones) + amount > v.amount {
        (v, Err(EscrowError::AmountMismatch))
    } else {
        let id = (v.milestones.len() + 1) as u32;
        let m = Milestone {
            id,
            description,
            amount,
            approved: false,
            released: false,
            created_at: now,
            approved_at: None,
            released_at: None,
        };
        let v2 = EscrowView {
            milestones: v.milestones.push(m),
            milestone_history: v.milestone_history.push(
                MilestoneHistory { milestone: m, action: MilestoneAction::Created, timestamp: now },
            ),
            ..v
        };
        (v2, Ok(id))
    }
}

/// `create_milestone` keeps the record well formed and holds no funds in or
/// out: it never changes the state, the released total or the fees.
pub proof fn lemma_create_milestone_tr(
    cfg: ContractConfig,
    v: EscrowView,
    caller: AccountId,
    description: String,
    amount: i128,
    now: u64,
)
    requires
        escrow_wf(v),
        ts_bounded(v, now),
    ensures
        ({
            let (v2, r) = create_milestone_tr(cfg, v, caller, description, amount, now);
            &&& escrow_wf(v2)
            &&& ts_bounded(v2, now)
            &&& v2.state == v.state
            &&& outstanding(v2) == outstanding(v)
            &&& r is Err ==> v2 == v
        }),
{
    let (v2, r) = create_milestone_tr(cfg, v, caller, description, amount, now);
    if r is Ok {
        let m = v2.milestones.last();
        lemma_sums_push(v.milestones, m);
        assert forall|i: int| 0 <= i < v2.milestones.len() implies milestone_ok(
            #[trigger] v2.milestones[i],
            i,
        ) by {
            if i < v.milestones.len() {
                assert(milestone_ok(v.milestones[i], i));
            }
        }
    }
}

impl EscrowData {
    /// Append a milestone worth `amount` to the ledger.  The caller must be
    /// the client, the escrow must not be past `Funded`, no milestone may
    /// have been released yet, and the running sum of milestone amounts must
    /// stay within the escrow amount.  Returns the new milestone's id.
    pub fn create_milestone(
        &mut self,
        cfg: &ContractConfig,
        caller: AccountId,
        description: String,
        amount: i128,
        now: u64,
    ) -> (r: Result<u32, EscrowError>)
        requires
            config_valid(*cfg),
            escrow_wf(old(self)@),
            ts_bounded(old(self)@, now),
        ensures
            ({
                let (v2, res) = create_milestone_tr(
                    *cfg,
                    old(self)@,
                    caller,
                    description,
                    amount,
                    now,
                );
                final(self)@ == v2 && r == res
            }),
            escrow_wf(final(self)@),
            ts_bounded(final(self)@, now),
            r is Err ==> final(self)@ == old(self)@,
            final(self)@.state == old(self)@.state,
    {
        proof {
            lemma_create_milestone_tr(*cfg, old(self)@, caller, description, amount, now);
        }
        if caller != self.client {
            return Err(EscrowError::Unauthorized);
        }
        if !(self.state == EscrowState::Created || self.state == EscrowState::Funded) {
            return Err(EscrowError::InvalidTransition);
        }
        if self.released_amount > 0 {
            return Err(EscrowError::MilestoneAlreadyReleased);
        }
        if amount <= 0 {
            return Err(EscrowError::InsufficientValue);
        }
        if self.milestones.len() >= cfg.max_milestones as usize {
            return Err(EscrowError::MaxMilestonesExceeded);
        }
        let total = milestone_total(&self.milestones);
        if total > self.amount - amount {
            return Err(EscrowError::AmountMismatch);
        }
        let id = self.milestones.len() as u32 + 1;
        let m = Milestone {
            id,
            description,
            amount,
            approved: false,
            released: false,
            created_at: now,
            approved_at: None,
            released_at: None,
        };
        let snapshot = m.clone();
        self.milestones.push(m);
        self.milestone_history.push(
            MilestoneHistory {
                milestone: snapshot,
                action: MilestoneAction::Created,
                timestamp: now,
            },
        );
        proof {
            let (v2, _) = create_milestone_tr(*cfg, old(self)@, caller, description, amount, now);
            assert(self@ =~= v2);
        }
        Ok(id)
    }
}

/// The transition `approve_milestone` performs: on success the milestone
/// named by `id` becomes approved with its approval time stamped, and the
/// audit log gains an `Approved` entry; on failure the record is unchanged.
pub open spec fn approve_milestone_tr(
    v: EscrowView,
    caller: AccountId,
    id: u32,
    now: u64,
) -> (EscrowView, Result<(), EscrowError>) {
    if !client_or_arbitrator(v, caller) {
        (v, Err(EscrowError::Unauthorized))
    } else if !(1 <= id && id <= v.milestones.len()) {
        (v, Err(EscrowError::MilestoneNotFound))
    } else {
        let i = id - 1;
        let m = v.milestones[i];
        if m.approved {
            (v, Err(EscrowError::MilestoneAlreadyApproved))
        } else {
            let m2 = Milestone { approved: true, approved_at: Some(now), ..m };
            let v2 = EscrowView {
                milestones: v.milestones.update(i, m2),
                milestone_history: v.milestone_history.push(
                    MilestoneHistory {
                        milestone: m2,
                        action: MilestoneAction::Approved,
                        timestamp: now,
                    },
                ),
                ..v
            };
            (v2, Ok(()))
        }
    }
}

/// `approve_milestone` keeps the record well formed and moves no funds: it
/// never changes the state, the released total or the fees.
pub proof fn lemma_approve_milestone_tr(v: EscrowView, caller: AccountId, id: u32, now: u64)
    requires
        escrow_wf(v),
        ts_bounded(v, now),
    ensures
        ({
            let (v2, r) = approve_milestone_tr(v, caller, id, now);
            &&& escrow_wf(v2)
            &&& ts_bounded(v2, now)
            &&& v2.state == v.state
            &&& outstanding(v2) == outstanding(v)
            &&& r is Err ==> v2 == v
        }),
{
    let (v2, r) = approve_milestone_tr(v, caller, id, now);
    if r is Ok {
        let i = id - 1;
        let m = v.milestones[i];
        let m2 = Milestone { approved: true, approved_at: Some(now), ..m };
        assert(milestone_ok(m, i));
        lemma_sums_update(v.milestones, i, m2);
        assert forall|j: int| 0 <= j < v2.milestones.len() implies milestone_ok(
            #[trigger] v2.milestones[j],
            j,
        ) by {
            assert(milestone_ok(v.milestones[j], j));
        }
    }
}

/// The transition `release_milestone` performs: on success the milestone
/// named by `id` becomes released, the released total grows by its gross
/// amount, the fee on that amount is collected, the audit log gains a
/// `Released` entry, and the payout instructs the net transfer to the
/// freelancer; once the whole amount is released the record moves to
/// `Released`.  On failure the record is unchanged.
pub open spec fn release_milestone_tr(
    cfg: ContractConfig,
    v: EscrowView,
    caller: AccountId,
    id: u32,
    now: u64,
) -> (EscrowView, Result<PayoutView, EscrowError>) {
    if !client_or_arbitrator(v, caller) {
        (v, Err(EscrowError::Unauthorized))
    } else if !(v.state is Funded) {
        (v, Err(EscrowError::InvalidTransition))
    } else if !(1 <= id && id <= v.milestones.len()) {
        (v, Err(EscrowError::MilestoneNotFound))
    } else {
        let i = id - 1;
        let m = v.milestones[i];
        if m.released {
            (v, Err(EscrowError::MilestoneAlreadyReleased))
        } else if !m.approved {
            (v, Err(EscrowError::MilestoneNotApproved))
        } else {
            let fee = fee_of(m.amount as int, cfg.fee_percentage as int);
            let m2 = Milestone { released: true, released_at: Some(now), ..m };
            let released2 = v.released_amount + m.amount;
            let collected2 = v.fee_collected + fee;
            let full = released2 == v.amount;
            let v2 = EscrowView {
                milestones: v.milestones.update(i, m2),
                milestone_history: v.milestone_history.push(
                    MilestoneHistory {
                        milestone: m2,
                        action: MilestoneAction::Released,
                        timestamp: now,
                    },
                ),
                released_amount: released2,
                fee_collected: collected2,
                net_amount: v.amount - collected2,
                state: if full {
                    EscrowState::Released
                } else {
                    EscrowState::Funded
                },
                released_at: if full {
                    Some(now)
                } else {
                    v.released_at
                },
                ..v
            };
            let payout = PayoutView {
                to_freelancer: m.amount - fee,
                to_client: 0,
                fee,
            };
            (v2, Ok(payout))
        }
    }
}

/// `release_milestone` keeps the record well formed, follows the transition
/// table, and conserves value: the payout it instructs equals the reduction
/// of the outstanding balance.
pub proof fn lemma_release_milestone_tr(
    cfg: ContractConfig,
    v: EscrowView,
    caller: AccountId,
    id: u32,
    now: u64,
)
    requires
        escrow_wf(v),
        ts_bounded(v, now),
        config_valid(cfg),
    ensures
        ({
            let (v2, r) = release_milestone_tr(cfg, v, caller, id, now);
            &&& escrow_wf(v2)
            &&& ts_bounded(v2, now)
            &&& transition_ok(v.state, v2.state)
            &&& r is Err ==> v2 == v
            &&& r matches Ok(p) ==> payout_total(p) == outstanding(v) - outstanding(v2)
                && p.to_freelancer >= 0 && p.to_client >= 0 && p.fee >= 0
        }),
{
    let (v2, r) = release_milestone_tr(cfg, v, caller, id, now);
    if r is Ok {
        let i = id - 1;
        let m = v.milestones[i];
        let fee = fee_of(m.amount as int, cfg.fee_percentage as int);
        let m2 = Milestone { released: true, released_at: Some(now), ..m };
        assert(milestone_ok(m, i));
        crate::fee::lemma_fee_in_range(m.amount as int, cfg.fee_percentage as int);
        lemma_sums_update(v.milestones, i, m2);
        assert forall|j: int| 0 <= j < v2.milestones.len() implies milestone_ok(
            #[trigger] v2.milestones[j],
            j,
        ) by {
            assert(milestone_ok(v.milestones[j], j));
        }
        lemma_milestone_sums_nonneg(v2.milestones);
    }
}

impl EscrowData {
    /// Mark the milestone named by `id` as approved.  The caller must be the
    /// client or the arbitrator; the milestone must exist and not be
    /// approved yet.
    pub fn approve_milestone(&mut self, caller: AccountId, id: u32, now: u64) -> (r: Result<
        (),
        EscrowError,
    >)
        requires
            escrow_wf(old(self)@),
            ts_bounded(old(self)@, now),
        ensures
            ({
                let (v2, res) = approve_milestone_tr(old(self)@, caller, id, now);
                final(self)@ == v2 && r == res
            }),
            escrow_wf(final(self)@),
            ts_bounded(final(self)@, now),
            r is Err ==> final(self)@ == old(self)@,
            final(self)@.state == old(self)@.state,
    {
        proof {
            lemma_approve_milestone_tr(old(self)@, caller, id, now);
        }
        if !self.is_client_or_arbitrator(caller) {
            return Err(EscrowError::Unauthorized);
        }
        if !(1 <= id && id as usize <= self.milestones.len()) {
            return Err(EscrowError::MilestoneNotFound);
        }
        let i = (id - 1) as usize;
        let m = &self.milestones[i];
        if m.approved {
            return Err(EscrowError::MilestoneAlreadyApproved);
        }
        let m2 = Milestone {
            id: m.id,
            description: m.description.clone(),
            amount: m.amount,
            approved: true,
            released: m.released,
            created_at: m.created_at,
            approved_at: Some(now),
            released_at: m.released_at,
        };
        let snapshot = m2.clone();
        self.milestones.set(i, m2);
        self.milestone_history.push(
            MilestoneHistory {
                milestone: snapshot,
                action: MilestoneAction::Approved,
                timestamp: now,
            },
        );
        proof {
            let (v2, _) = approve_milestone_tr(old(self)@, caller, id, now);
            assert(self@ =~= v2);
        }
        Ok(())
    }

    /// Release the milestone named by `id`: deduct the platform fee from its
    /// amount, instruct the net payout to the freelancer, and mark the
    /// milestone released.  The caller must be the client or the arbitrator,
    /// the escrow must be `Funded`, and the milestone approved but not yet
    /// released.  Once every milestone is released the record itself moves
    /// to `Released`.
    pub fn release_milestone(
        &mut self,
        cfg: &ContractConfig,
        caller: AccountId,
        id: u32,
        now: u64,
    ) -> (r: Result<Payout, EscrowError>)
        requires
            config_valid(*cfg),
            escrow_wf(old(self)@),
            ts_bounded(old(self)@, now),
        ensures
            ({
                let (v2, res) = release_milestone_tr(*cfg, old(self)@, caller, id, now);
                final(self)@ == v2 && payout_res_view(r) == res
            }),
            escrow_wf(final(self)@),
            ts_bounded(final(self)@, now),
            r is Err ==> final(self)@ == old(self)@,
            transition_ok(old(self)@.state, final(self)@.state),
    {
        proof {
            lemma_release_milestone_tr(*cfg, old(self)@, caller, id, now);
        }
        if !self.is_client_or_arbitrator(caller) {
            return Err(EscrowError::Unauthorized);
        }
        if !(self.state == EscrowState::Funded) {
            return Err(EscrowError::InvalidTransition);
        }
        if !(1 <= id && id as usize <= self.milestones.len()) {
            return Err(EscrowError::MilestoneNotFound);
        }
        let i = (id - 1) as usize;
        let m = &self.milestones[i];
        if m.released {
            return Err(EscrowError::MilestoneAlreadyReleased);
        }
        if !m.approved {
            return Err(EscrowError::MilestoneNotApproved);
        }
        proof {
            assert(milestone_ok(self@.milestones[i as int], i as int));
            lemma_element_le_sum(self@.milestones, i as int);
        }
        let gross = m.amount;
        let (fee, net) = compute_fee(gross, cfg.fee_percentage);
        let m2 = Milestone {
            id: m.id,
            description: m.description.clone(),
            amount: m.amount,
            approved: m.approved,
            released: true,
            created_at: m.created_at,
            approved_at: m.approved_at,
            released_at: Some(now),
        };
        let snapshot = m2.clone();
        self.milestones.set(i, m2);
        self.milestone_history.push(
            MilestoneHistory {
                milestone: snapshot,
                action: MilestoneAction::Released,
                timestamp: now,
            },
        );
        self.released_amount = self.released_amount + gross;
        self.fee_collected = self.fee_collected + fee;
        self.net_amount = self.amount - self.fee_collected;
        if self.released_amount == self.amount {
            self.state = EscrowState::Released;
            self.released_at = Some(now);
        }
        proof {
            let (v2, _) = release_milestone_tr(*cfg, old(self)@, caller, id, now);
            assert(self@ =~= v2);
        }
        Ok(Payout { to_freelancer: net, to_client: 0, fee })
    }
}

} // verus!
