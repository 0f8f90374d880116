//! The dispute resolver: computes the payout split of the unreleased
//! residual from an arbitrator's verdict.
//!
//! `ClientWins` returns the whole residual to the client, `FreelancerWins`
//! releases it to the freelancer, and `Split` partitions it by a ratio in
//! basis points.  A `Split` with a zero freelancer share settles like
//! `ClientWins`, one with a zero client share like `FreelancerWins`: all
//! three verdicts resolve through this one computation.

use vstd::prelude::*;

use crate::fee::{compute_fee, lemma_fee_in_range, BPS_DENOM, MAX_GROSS};
use crate::types::DisputeResult;

verus! {

/// The gross portion of the residual awarded to the freelancer by a verdict.
/// For `Split` it is the floor of the basis-point portion, computed exactly
/// like a fee.
pub open spec fn freelancer_share(residual: int, verdict: DisputeResult, split_bps: int) -> int {
    match verdict {
        DisputeResult::ClientWins => 0,
        DisputeResult::FreelancerWins => residual,
        DisputeResult::Split => residual * split_bps / (BPS_DENOM as int),
    }
}

/// At a split ratio of at most 100%, the freelancer's share lies between
/// zero and the residual.
pub proof fn lemma_share_in_range(residual: int, verdict: DisputeResult, split_bps: int)
    requires
        0 <= residual,
        0 <= split_bps <= BPS_DENOM,
    ensures
        0 <= freelancer_share(residual, verdict, split_bps) <= residual,
{
    if verdict is Split {
        lemma_fee_in_range(residual, split_bps);
    }
}

/// Partition the unreleased residual as the verdict directs, into the
/// freelancer's gross share and the client's remainder.
pub fn split_residual(residual: i128, verdict: DisputeResult, split_bps: i128) -> (shares: (
    i128,
    i128,
))
    requires
        0 <= residual <= MAX_GROSS,
        0 <= split_bps <= BPS_DENOM,
    ensures
        shares.0 == freelancer_share(residual as int, verdict, split_bps as int),
        shares.1 == residual - shares.0,
        0 <= shares.0 <= residual,
{
    match verdict {
        DisputeResult::ClientWins => (0, residual),
        DisputeResult::FreelancerWins => (residual, 0),
        DisputeResult::Split => compute_fee(residual, split_bps),
    }
}

} // verus!
