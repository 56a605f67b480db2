//! A two-party payment channel with probabilistic settlement.
//!
//! A payer locks funds into an escrow, accumulates micropayment intent,
//! and a periodic randomized draw decides whether the accumulated amount
//! is actually settled to the payee. Over many rounds this converges to
//! the same expected payout as per-event payment while batching the
//! settlement operations.
//!
//! The crate holds the channel record, the wire codec for requests and
//! for the persisted record, the four lifecycle operations, the threshold
//! policy, and proofs of the channel's accounting laws. The host's ledger,
//! clock and signature checks are passed in as plain values; applying the
//! resulting transfers is the embedder's job.

pub mod channel;
pub mod codec;
pub mod laws;
pub mod ops;
pub mod threshold;
