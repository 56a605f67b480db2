//! The threshold policy: a pure map from an accumulated-intent magnitude to
//! a recommended settlement probability.
//!
//! Larger pending amounts should resolve sooner, to bound the payee's
//! value-at-risk while still batching small amounts. The lifecycle
//! operations initialize a channel's threshold once and do not recompute it;
//! this policy is offered to callers that want to adjust it as intent grows.

use vstd::prelude::*;
use crate::channel::THRESHOLD_SCALE;

verus! {

/// Base probability threshold: 100 basis points, a 1% chance.
pub const BASE_THRESHOLD: u16 = 100;

/// Recommended probability threshold, in basis points, for a channel whose
/// accumulated intent is `accumulated_amount`.
pub fn calculate_dynamic_threshold(accumulated_amount: u64) -> (r: u16)
    ensures
        accumulated_amount < 10000 ==> r == BASE_THRESHOLD,
        10000 <= accumulated_amount < 100000 ==> r == 2 * BASE_THRESHOLD,
        100000 <= accumulated_amount < 1000000 ==> r == 5 * BASE_THRESHOLD,
        accumulated_amount >= 1000000 ==> r == 10 * BASE_THRESHOLD,
        r as u64 <= THRESHOLD_SCALE,
{
    // For micropayments, keep the probability low to batch more payments.
    if accumulated_amount < 10_000 {
        BASE_THRESHOLD
    } else if accumulated_amount < 100_000 {
        BASE_THRESHOLD * 2
    } else if accumulated_amount < 1_000_000 {
        BASE_THRESHOLD * 5
    } else {
        BASE_THRESHOLD * 10
    }
}

} // verus!
