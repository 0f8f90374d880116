//! The data model of one escrow agreement: its lifecycle states, its
//! milestone ledger, the audit log, the record itself, and the mathematical
//! view and well-formedness invariant that every entrypoint preserves.

use vstd::prelude::*;

use crate::fee::MAX_GROSS;

verus! {

/// A principal on the hosting ledger, reduced to the stable identifier that
/// the settlement logic compares for authorization.
#[derive(Clone, Copy, Debug, PartialEq, Eq, Hash, Structural)]
pub struct AccountId(pub u64);

/// The lifecycle state of an escrow record.
#[derive(Clone, Copy, Debug, PartialEq, Eq, Structural)]
pub enum EscrowState {
    Created,
    Funded,
    Released,
    Refunded,
    Disputed,
}

/// The transition table of the escrow state machine: the only edges a record
/// may ever follow.
pub open spec fn spec_can_transition_to(from: EscrowState, to: EscrowState) -> bool {
    match (from, to) {
        (EscrowState::Created, EscrowState::Funded) => true,
        (EscrowState::Funded, EscrowState::Released) => true,
        (EscrowState::Funded, EscrowState::Refunded) => true,
        (EscrowState::Funded, EscrowState::Disputed) => true,
        (EscrowState::Disputed, EscrowState::Released) => true,
        (EscrowState::Disputed, EscrowState::Refunded) => true,
        _ => false,
    }
}

/// A state either stays put or moves along an edge of the transition table.
pub open spec fn transition_ok(from: EscrowState, to: EscrowState) -> bool {
    from == to || spec_can_transition_to(from, to)
}

impl EscrowState {
    /// Whether the transition table allows moving from `self` to `next`.
    pub fn can_transition_to(&self, next: &EscrowState) -> (allowed: bool)
        ensures
            allowed == spec_can_transition_to(*self, *next),
    {
        match (self, next) {
            (EscrowState::Created, EscrowState::Funded) => true,
            (EscrowState::Funded, EscrowState::Released) => true,
            (EscrowState::Funded, EscrowState::Refunded) => true,
            (EscrowState::Funded, EscrowState::Disputed) => true,
            (EscrowState::Disputed, EscrowState::Released) => true,
            (EscrowState::Disputed, EscrowState::Refunded) => true,
            _ => false,
        }
    }
}

/// The outcome an arbitrator settles a dispute with.  The record stores
/// `Option<DisputeResult>`: `None` until a dispute has been resolved.
#[derive(Clone, Copy, Debug, PartialEq, Eq, Structural)]
pub enum DisputeResult {
    ClientWins,
    FreelancerWins,
    Split,
}

/// The action a milestone audit entry records.
#[derive(Clone, Copy, Debug, PartialEq, Eq, Structural)]
pub enum MilestoneAction {
    Created,
    Approved,
    Released,
}

/// One milestone of an escrow: a named, amount-bearing sub-deliverable that
/// is approved and released independently.
#[derive(Debug, PartialEq, Eq)]
pub struct Milestone {
    /// Unique within the escrow; milestone `i` (0-based) carries id `i + 1`.
    pub id: u32,
    pub description: String,
    /// The portion of the escrow total this milestone pays out.
    pub amount: i128,
    pub approved: bool,
    pub released: bool,
    pub created_at: u64,
    pub approved_at: Option<u64>,
    pub released_at: Option<u64>,
}

impl Clone for Milestone {
    fn clone(&self) -> (r: Self)
        ensures
            r == *self,
    {
        Milestone {
            id: self.id,
            description: self.description.clone(),
            amount: self.amount,
            approved: self.approved,
            released: self.released,
            created_at: self.created_at,
            approved_at: self.approved_at,
            released_at: self.released_at,
        }
    }
}

/// One entry of the append-only milestone audit log: a snapshot of the
/// milestone as the action left it, the action label, and when it happened.
#[derive(Debug, PartialEq, Eq)]
pub struct MilestoneHistory {
    pub milestone: Milestone,
    pub action: MilestoneAction,
    pub timestamp: u64,
}

impl Clone for MilestoneHistory {
    fn clone(&self) -> (r: Self)
        ensures
            r == *self,
    {
        MilestoneHistory {
            milestone: self.milestone.clone(),
            action: self.action,
            timestamp: self.timestamp,
        }
    }
}

/// One escrow agreement at rest.  Mutated exclusively through the entrypoints
/// in [`crate::engine`] and [`crate::ledger`], which preserve
/// [`escrow_wf`] of its view.
#[derive(Debug, PartialEq, Eq)]
pub struct EscrowData {
    pub client: AccountId,
    pub freelancer: AccountId,
    /// Neutral third party; required before a dispute can be raised.
    pub arbitrator: Option<AccountId>,
    /// The value unit held: `None` for the native asset.
    pub token: Option<AccountId>,
    /// Total gross value committed, fixed at creation.
    pub amount: i128,
    pub state: EscrowState,
    /// `None` until an arbitrator has resolved a dispute; final afterwards.
    pub dispute_result: Option<DisputeResult>,
    pub created_at: u64,
    pub funded_at: Option<u64>,
    pub released_at: Option<u64>,
    pub disputed_at: Option<u64>,
    pub resolved_at: Option<u64>,
    /// Grace period from `funded_at` after which the residual is refundable.
    pub timeout_secs: Option<u64>,
    pub milestones: Vec<Milestone>,
    /// Append-only audit log; entrypoints only ever push to it.
    pub milestone_history: Vec<MilestoneHistory>,
    /// Cumulative gross value released towards the freelancer.
    pub released_amount: i128,
    /// The external fee-bookkeeping collaborator fees are forwarded to.
    pub fee_manager: AccountId,
    /// Cumulative fees deducted from released gross value.
    pub fee_collected: i128,
    /// `amount - fee_collected` as of the last settlement.
    pub net_amount: i128,
}

/// The mathematical view of an [`EscrowData`] record: amounts as unbounded
/// integers, the vectors as sequences.
#[verifier::ext_equal]
pub ghost struct EscrowView {
    pub client: AccountId,
    pub freelancer: AccountId,
    pub arbitrator: Option<AccountId>,
    pub token: Option<AccountId>,
    pub amount: int,
    pub state: EscrowState,
    pub dispute_result: Option<DisputeResult>,
    pub created_at: u64,
    pub funded_at: Option<u64>,
    pub released_at: Option<u64>,
    pub disputed_at: Option<u64>,
    pub resolved_at: Option<u64>,
    pub timeout_secs: Option<u64>,
    pub milestones: Seq<Milestone>,
    pub milestone_history: Seq<MilestoneHistory>,
    pub released_amount: int,
    pub fee_manager: AccountId,
    pub fee_collected: int,
    pub net_amount: int,
}

impl View for EscrowData {
    type V = EscrowView;

    open spec fn view(&self) -> EscrowView {
        EscrowView {
            client: self.client,
            freelancer: self.freelancer,
            arbitrator: self.arbitrator,
            token: self.token,
            amount: self.amount as int,
            state: self.state,
            dispute_result: self.dispute_result,
            created_at: self.created_at,
            funded_at: self.funded_at,
            released_at: self.released_at,
            disputed_at: self.disputed_at,
            resolved_at: self.resolved_at,
            timeout_secs: self.timeout_secs,
            milestones: self.milestones@,
            milestone_history: self.milestone_history@,
            released_amount: self.released_amount as int,
            fee_manager: self.fee_manager,
            fee_collected: self.fee_collected as int,
            net_amount: self.net_amount as int,
        }
    }
}

/// Sum of all milestone amounts.
pub open spec fn milestone_sum(s: Seq<Milestone>) -> int
    decreases s.len(),
{
    if s.len() == 0 {
        0
    } else {
        milestone_sum(s.drop_last()) + s.last().amount
    }
}

/// What a milestone contributes to the released total.
pub open spec fn released_contribution(m: Milestone) -> int {
    if m.released {
        m.amount as int
    } else {
        0
    }
}

/// Sum of the amounts of the released milestones.
pub open spec fn released_sum(s: Seq<Milestone>) -> int
    decreases s.len(),
{
    if s.len() == 0 {
        0
    } else {
        released_sum(s.drop_last()) + released_contribution(s.last())
    }
}

/// With no negative amounts, the released part of the ledger never exceeds
/// the whole.
pub proof fn lemma_milestone_sums_nonneg(s: Seq<Milestone>)
    requires
        forall|i: int| 0 <= i < s.len() ==> 0 <= (#[trigger] s[i]).amount,
    ensures
        0 <= released_sum(s) <= milestone_sum(s),
    decreases s.len(),
{
    if s.len() > 0 {
        lemma_milestone_sums_nonneg(s.drop_last());
    }
}

/// Appending a milestone adds its amount to the ledger sums.
pub proof fn lemma_sums_push(s: Seq<Milestone>, m: Milestone)
    ensures
        milestone_sum(s.push(m)) == milestone_sum(s) + m.amount,
        released_sum(s.push(m)) == released_sum(s) + released_contribution(m),
{
    assert(s.push(m).drop_last() =~= s);
}

/// Replacing one milestone shifts the ledger sums by the difference of the
/// old and the new entry.
pub proof fn lemma_sums_update(s: Seq<Milestone>, i: int, m: Milestone)
    requires
        0 <= i < s.len(),
    ensures
        milestone_sum(s.update(i, m)) == milestone_sum(s) - s[i].amount + m.amount,
        released_sum(s.update(i, m)) == released_sum(s) - released_contribution(s[i])
            + released_contribution(m),
    decreases s.len(),
{
    let s2 = s.update(i, m);
    if i == s.len() - 1 {
        assert(s2.drop_last() =~= s.drop_last());
    } else {
        assert(s2.drop_last() =~= s.drop_last().update(i, m));
        lemma_sums_update(s.drop_last(), i, m);
    }
}

/// With no negative amounts, a single milestone amount is at most the sum.
pub proof fn lemma_element_le_sum(s: Seq<Milestone>, i: int)
    requires
        0 <= i < s.len(),
        forall|j: int| 0 <= j < s.len() ==> 0 <= (#[trigger] s[j]).amount,
    ensures
        s[i].amount <= milestone_sum(s),
    decreases s.len(),
{
    if i == s.len() - 1 {
        lemma_milestone_sums_nonneg(s.drop_last());
    } else {
        lemma_element_le_sum(s.drop_last(), i);
    }
}

/// One step of summing a prefix of the ledger.
pub proof fn lemma_sum_take_step(s: Seq<Milestone>, j: int)
    requires
        0 <= j < s.len(),
    ensures
        milestone_sum(s.take(j + 1)) == milestone_sum(s.take(j)) + s[j].amount,
{
    assert(s.take(j + 1).drop_last() =~= s.take(j));
}

/// With no negative amounts, a prefix sum never exceeds the whole sum.
pub proof fn lemma_sum_take_le(s: Seq<Milestone>, j: int)
    requires
        0 <= j <= s.len(),
        forall|i: int| 0 <= i < s.len() ==> 0 <= (#[trigger] s[i]).amount,
    ensures
        milestone_sum(s.take(j)) <= milestone_sum(s),
    decreases s.len() - j,
{
    if j == s.len() {
        assert(s.take(j) =~= s);
    } else {
        lemma_sum_take_step(s, j);
        lemma_sum_take_le(s, j + 1);
    }
}

/// Once the released part of the ledger reaches the whole sum, every
/// milestone is released: this is the condition under which the state
/// machine performs the automatic full-release transition.
pub proof fn lemma_full_release_means_all_released(s: Seq<Milestone>)
    requires
        forall|i: int| 0 <= i < s.len() ==> 0 < (#[trigger] s[i]).amount,
        released_sum(s) == milestone_sum(s),
    ensures
        forall|i: int| 0 <= i < s.len() ==> (#[trigger] s[i]).released,
    decreases s.len(),
{
    if s.len() > 0 {
        lemma_milestone_sums_nonneg(s.drop_last());
        lemma_full_release_means_all_released(s.drop_last());
        assert forall|i: int| 0 <= i < s.len() implies (#[trigger] s[i]).released by {
            if i < s.len() - 1 {
                assert(s.drop_last()[i] == s[i]);
            }
        }
    }
}

/// Well-formedness of the milestone at position `i` of the ledger.
pub open spec fn milestone_ok(m: Milestone, i: int) -> bool {
    &&& m.id == i + 1
    &&& 0 < m.amount
    &&& (m.released ==> m.approved)
    &&& (m.approved <==> m.approved_at is Some)
    &&& (m.released <==> m.released_at is Some)
}

/// Well-formedness of the milestone ledger: sequential ids starting at 1,
/// positive amounts, a released milestone is approved, and the optional
/// timestamps exist exactly when the corresponding flag is set.
pub open spec fn milestones_wf(s: Seq<Milestone>) -> bool {
    forall|i: int| 0 <= i < s.len() ==> milestone_ok(#[trigger] s[i], i)
}

/// The invariant of an escrow record at rest.  Established by creation and
/// preserved by every entrypoint.
pub open spec fn escrow_wf(v: EscrowView) -> bool {
    // conservation bounds: collected fees are part of the released gross,
    // which never exceeds the committed amount
    &&& 0 < v.amount <= MAX_GROSS
    &&& 0 <= v.fee_collected
    &&& v.fee_collected <= v.released_amount
    &&& v.released_amount <= v.amount
    &&& v.net_amount == v.amount - v.fee_collected
    // the milestone ledger
    &&& milestones_wf(v.milestones)
    &&& milestone_sum(v.milestones) <= v.amount
    &&& released_sum(v.milestones) <= v.released_amount
    &&& (!(v.state is Released) && !(v.state is Refunded) ==> v.released_amount
        == released_sum(v.milestones))
    // state-dependent fields
    &&& (v.state is Created ==> v.released_amount == 0 && v.fee_collected == 0)
    &&& (v.state is Created <==> v.funded_at is None)
    &&& (v.state is Created || v.state is Funded ==> v.dispute_result is None
        && v.disputed_at is None && v.released_at is None)
    &&& (v.state is Disputed ==> v.disputed_at is Some && v.arbitrator is Some
        && v.dispute_result is None && v.released_at is None)
    &&& (v.state is Released ==> v.released_at is Some)
    // a resolved dispute is final and only ends in a terminal state
    &&& (v.dispute_result is Some ==> v.state is Released || v.state is Refunded)
    &&& (v.dispute_result is Some <==> v.resolved_at is Some)
    &&& (v.resolved_at is Some ==> v.disputed_at is Some)
    &&& (v.disputed_at is Some ==> v.funded_at is Some)
    // timestamps are monotone in call order
    &&& (v.funded_at matches Some(t) ==> v.created_at <= t)
    &&& (v.disputed_at matches Some(t) ==> v.funded_at matches Some(f) && f <= t)
    &&& (v.resolved_at matches Some(t) ==> v.disputed_at matches Some(d) && d <= t)
    &&& (v.released_at matches Some(t) ==> v.funded_at matches Some(f) && f <= t)
}

/// All timestamps of the record lie at or before `now`: the hosting ledger's
/// clock never runs backwards between calls.
pub open spec fn ts_bounded(v: EscrowView, now: u64) -> bool {
    &&& v.created_at <= now
    &&& (v.funded_at matches Some(t) ==> t <= now)
    &&& (v.disputed_at matches Some(t) ==> t <= now)
    &&& (v.resolved_at matches Some(t) ==> t <= now)
    &&& (v.released_at matches Some(t) ==> t <= now)
}

/// The portion of the held amount not yet released or disbursed: what a
/// refund or a dispute resolution settles.  Zero once no funds are held.
pub open spec fn outstanding(v: EscrowView) -> int {
    if v.state is Funded || v.state is Disputed {
        v.amount - v.released_amount
    } else {
        0
    }
}

/// The label under which a state appears in a read-only summary.
pub open spec fn state_label(s: EscrowState) -> Seq<char> {
    match s {
        EscrowState::Created => "Created"@,
        EscrowState::Funded => "Funded"@,
        EscrowState::Released => "Released"@,
        EscrowState::Refunded => "Refunded"@,
        EscrowState::Disputed => "Disputed"@,
    }
}

impl EscrowState {
    /// The state's name, for read-only summaries.
    pub fn label(&self) -> (s: String)
        ensures
            s@ == state_label(*self),
    {
        match self {
            EscrowState::Created => "Created".to_owned(),
            EscrowState::Funded => "Funded".to_owned(),
            EscrowState::Released => "Released".to_owned(),
            EscrowState::Refunded => "Refunded".to_owned(),
            EscrowState::Disputed => "Disputed".to_owned(),
        }
    }
}

/// A duplicate of the milestone ledger, element for element.
pub(crate) fn clone_milestones(v: &Vec<Milestone>) -> (r: Vec<Milestone>)
    ensures
        r@ == v@,
{
    let r = v.clone();
    proof {
        assert forall|i: int| 0 <= i < r@.len() implies r@[i] == v@[i] by {
            assert(vstd::pervasive::cloned::<Milestone>(v@[i], r@[i]));
        }
        assert(r@ =~= v@);
    }
    r
}

/// A duplicate of the audit log, element for element.
pub(crate) fn clone_history(v: &Vec<MilestoneHistory>) -> (r: Vec<MilestoneHistory>)
    ensures
        r@ == v@,
{
    let r = v.clone();
    proof {
        assert forall|i: int| 0 <= i < r@.len() implies r@[i] == v@[i] by {
            assert(vstd::pervasive::cloned::<MilestoneHistory>(v@[i], r@[i]));
        }
        assert(r@ =~= v@);
    }
    r
}

impl Clone for EscrowData {
    fn clone(&self) -> (r: Self)
        ensures
            r@ == self@,
    {
        let r = EscrowData {
            client: self.client,
            freelancer: self.freelancer,
            arbitrator: self.arbitrator,
            token: self.token,
            amount: self.amount,
            state: self.state,
            dispute_result: self.dispute_result,
            created_at: self.created_at,
            funded_at: self.funded_at,
            released_at: self.released_at,
            disputed_at: self.disputed_at,
            resolved_at: self.resolved_at,
            timeout_secs: self.timeout_secs,
            milestones: clone_milestones(&self.milestones),
            milestone_history: clone_history(&self.milestone_history),
            released_amount: self.released_amount,
            fee_manager: self.fee_manager,
            fee_collected: self.fee_collected,
            net_amount: self.net_amount,
        };
        proof {
            assert(r@ =~= self@);
        }
        r
    }
}

/// A read-only snapshot of the essentials of one escrow.
#[derive(Debug, PartialEq, Eq)]
pub struct EscrowSummary {
    pub client: AccountId,
    pub freelancer: AccountId,
    pub amount: i128,
    /// The state's name, as [`state_label`] spells it.
    pub status: String,
    pub created_at: u64,
    pub milestone_count: u32,
}

/// A full export of one escrow record for off-chain audit: the record, its
/// ledger and audit log duplicated, and when and under which format version
/// the export was taken.
#[derive(Debug, PartialEq, Eq)]
pub struct EscrowDataExport {
    pub contract_id: String,
    pub escrow_data: EscrowData,
    pub milestones: Vec<Milestone>,
    pub milestone_history: Vec<MilestoneHistory>,
    pub export_timestamp: u64,
    pub export_version: String,
}

/// Platform configuration limits the engine consults.
#[derive(Clone, Copy, Debug, PartialEq, Eq, Structural)]
pub struct ContractConfig {
    pub min_escrow_amount: i128,
    pub max_escrow_amount: i128,
    pub default_timeout_days: u32,
    pub max_milestones: u32,
    /// Platform fee rate in basis points.
    pub fee_percentage: i128,
    pub rate_limit_calls: u32,
    pub rate_limit_window_hours: u32,
}

/// A usable configuration: a representable escrow amount range, a fee rate of
/// at most 100%, and room for at least one milestone.
pub open spec fn config_valid(c: ContractConfig) -> bool {
    &&& 0 < c.min_escrow_amount <= c.max_escrow_amount <= MAX_GROSS
    &&& 0 <= c.fee_percentage <= crate::fee::BPS_DENOM
    &&& 1 <= c.max_milestones
}

impl ContractConfig {
    /// Whether this configuration is usable by the engine.
    pub fn is_valid(&self) -> (valid: bool)
        ensures
            valid == config_valid(*self),
    {
        0 < self.min_escrow_amount && self.min_escrow_amount <= self.max_escrow_amount
            && self.max_escrow_amount <= crate::fee::MAX_GROSS && 0 <= self.fee_percentage
            && self.fee_percentage <= crate::fee::BPS_DENOM && 1 <= self.max_milestones
    }
}

/// The typed failures of the entrypoints.  Every failure aborts the call with
/// no state change.
#[derive(Clone, Copy, Debug, PartialEq, Eq, Structural)]
pub enum EscrowError {
    /// The state machine has no edge for the attempted move.
    InvalidTransition,
    /// The caller lacks the role the entrypoint demands.
    Unauthorized,
    /// `fund` on an escrow that is already funded.
    AlreadyFunded,
    /// The attached or requested value does not cover what is needed.
    InsufficientValue,
    /// The milestone ledger would no longer fit the escrow amount.
    AmountMismatch,
    MilestoneNotFound,
    MilestoneAlreadyApproved,
    MilestoneAlreadyReleased,
    MilestoneNotApproved,
    MaxMilestonesExceeded,
    /// `resolve_dispute` while no dispute is active.
    DisputeNotActive,
    /// `raise_dispute` with no arbitrator set.
    ArbitratorRequired,
    /// `refund` before the grace period has elapsed (or with none set).
    TimeoutNotReached,
    /// Settlement with nothing left to settle.
    NoResidualToSettle,
    /// The fee-bookkeeping collaborator failed; advisory, never raised by the
    /// engine itself: settlement is not blocked by fee bookkeeping.
    FeeRecordingFailed,
}

/// The transfers one settlement entrypoint instructs the host to perform.
#[derive(Clone, Copy, Debug, PartialEq, Eq, Structural)]
pub struct Payout {
    /// Net amount owed to the freelancer.
    pub to_freelancer: i128,
    /// Amount returned to the client.
    pub to_client: i128,
    /// Fee withheld, to forward to the fee manager.
    pub fee: i128,
}

/// The view of a payout, as unbounded integers.
#[verifier::ext_equal]
pub ghost struct PayoutView {
    pub to_freelancer: int,
    pub to_client: int,
    pub fee: int,
}

impl View for Payout {
    type V = PayoutView;

    open spec fn view(&self) -> PayoutView {
        PayoutView {
            to_freelancer: self.to_freelancer as int,
            to_client: self.to_client as int,
            fee: self.fee as int,
        }
    }
}

/// An entrypoint result with the payout replaced by its view, for stating
/// contracts against the transition functions.
pub open spec fn payout_res_view(r: Result<Payout, EscrowError>) -> Result<
    PayoutView,
    EscrowError,
> {
    match r {
        Ok(p) => Ok(p@),
        Err(e) => Err(e),
    }
}

/// Total value a payout moves out of the escrow.
pub open spec fn payout_total(p: PayoutView) -> int {
    p.to_freelancer + p.to_client + p.fee
}

} // verus!
