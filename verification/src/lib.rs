//! A verified settlement engine for milestone escrows.
//!
//! The engine holds a client's committed funds on behalf of a freelancer,
//! releases them incrementally against approved milestones, resolves disputes
//! through an arbitrator with split payouts, and refunds the unreleased
//! residual after a timeout.  Every entrypoint is specified by a transition
//! function over a mathematical view of the record, and the conservation and
//! state-machine laws are proved in [`laws`].
//!
//! The hosting ledger (storage, authorization proofs, value transfer, clock)
//! stays outside: entrypoints receive the caller, the current time and the
//! attached value as plain parameters and report the transfers to perform as a
//! [`types::Payout`] value.

pub mod dispute;

pub mod engine;

pub mod fee;

pub mod laws;

pub mod ledger;

pub mod types;
