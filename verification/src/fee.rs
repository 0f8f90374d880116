//! The fee calculator: pure computation of the platform fee and the net
//! amount from a gross amount and a fee rate in basis points.
//!
//! A payout of `gross` at a rate of `fee_bps` basis points costs a fee of
//! `floor(gross * fee_bps / 10_000)`; the freelancer receives the rest.  The
//! fee is charged independently per payout event, so it is never charged on
//! amounts that are not paid out.

use vstd::prelude::*;

verus! {

/// Basis points in a whole: a rate of `BPS_DENOM` is 100%.
pub const BPS_DENOM: i128 = 10_000;

/// Largest gross amount the fee computation accepts, `i128::MAX / 10_000`
/// rounded down: the product `gross * BPS_DENOM` must not overflow an `i128`.
pub const MAX_GROSS: i128 = 17_014_118_346_046_923_173_168_730_371_588_410;

/// The platform fee on a gross payout, rounded down.
pub open spec fn fee_of(gross: int, fee_bps: int) -> int {
    gross * fee_bps / (BPS_DENOM as int)
}

/// What the freelancer receives of a gross payout after the fee.
pub open spec fn net_of(gross: int, fee_bps: int) -> int {
    gross - fee_of(gross, fee_bps)
}

/// At a rate of at most 100%, the fee lies between zero and the gross
/// amount, so fee and net amount partition the payout.
pub proof fn lemma_fee_in_range(gross: int, fee_bps: int)
    requires
        0 <= gross,
        0 <= fee_bps <= BPS_DENOM,
    ensures
        0 <= fee_of(gross, fee_bps) <= gross,
        fee_of(gross, fee_bps) + net_of(gross, fee_bps) == gross,
{
    let d = BPS_DENOM as int;
    assert(gross * fee_bps >= 0) by (nonlinear_arith)
        requires
            gross >= 0,
            fee_bps >= 0,
    ;
    assert(gross * fee_bps <= gross * d) by (nonlinear_arith)
        requires
            gross >= 0,
            fee_bps <= d,
    ;
    assert(gross * fee_bps / d >= 0) by (nonlinear_arith)
        requires
            gross * fee_bps >= 0,
            d > 0,
    ;
    assert(gross * d / d == gross) by (nonlinear_arith)
        requires
            d > 0,
    ;
    assert(gross * fee_bps / d <= gross * d / d) by (nonlinear_arith)
        requires
            gross * fee_bps <= gross * d,
            d > 0,
    ;
}

/// Fee and net amount of a gross payout: `fee = floor(gross * fee_bps /
/// 10_000)` and `net = gross - fee`.
pub fn compute_fee(gross: i128, fee_bps: i128) -> (r: (i128, i128))
    requires
        0 <= gross <= MAX_GROSS,
        0 <= fee_bps <= BPS_DENOM,
    ensures
        r.0 == fee_of(gross as int, fee_bps as int),
        r.1 == net_of(gross as int, fee_bps as int),
        0 <= r.0 <= gross,
        r.0 + r.1 == gross,
{
    proof {
        lemma_fee_in_range(gross as int, fee_bps as int);
        assert((gross as int) * (fee_bps as int) <= (MAX_GROSS as int) * (BPS_DENOM as int))
            by (nonlinear_arith)
            requires
                0 <= gross <= MAX_GROSS,
                0 <= fee_bps <= BPS_DENOM,
        ;
        assert((MAX_GROSS as int) * (BPS_DENOM as int) <= i128::MAX as int)
            by (nonlinear_arith);
    }
    let g: u128 = gross as u128;
    let b: u128 = fee_bps as u128;
    let f: u128 = g * b / 10_000u128;
    let fee: i128 = f as i128;
    (fee, gross - fee)
}

} // verus!
