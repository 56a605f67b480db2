//! The channel record and the error taxonomy.

use vstd::prelude::*;

verus! {

/// A 32-byte account identity, held as four 64-bit words in little-endian
/// order (word 0 covers bytes 0..8 of the identity, word 3 bytes 24..32).
#[derive(Clone, Copy, PartialEq, Eq, Structural, Debug)]
pub struct Identity {
    pub w0: u64,
    pub w1: u64,
    pub w2: u64,
    pub w3: u64,
}

/// Why an operation was refused. Every refusal leaves the record and the
/// balances untouched.
#[derive(Clone, Copy, PartialEq, Eq, Structural, Debug)]
pub enum ChannelError {
    /// The caller did not sign the request.
    Unauthenticated,
    /// The target slot holds no initialized record (never set up, or closed).
    RecordNotInitialized,
    /// The caller or the named payee differs from the identities stored in
    /// the record.
    IdentityMismatch,
    /// The channel's expiry timestamp has passed and the operation enforces
    /// expiry.
    ExpiredChannel,
    /// The operation would break the funds accounting: the intent would
    /// exceed the locked total, or the escrow lacks liquidity for a payout.
    InsufficientFunds,
    /// The ledger cannot allocate the channel: the slot is already taken or
    /// the payer cannot fund the escrow.
    AllocationFailed,
    /// The request bytes do not decode to any operation.
    MalformedRequest,
}

/// The probability scale: thresholds are basis points out of this value.
pub const THRESHOLD_SCALE: u64 = 10000;

/// The threshold a fresh channel starts with: 100 basis points, i.e. 1%.
pub const INITIAL_THRESHOLD: u16 = 100;

/// The persisted state of one payment channel.
#[derive(Clone, Copy, PartialEq, Eq, Structural, Debug)]
pub struct PaymentChannel {
    /// Guards against re-initialization and against operating on an empty
    /// slot. Never reverts to false; a finished channel is deleted instead.
    pub is_initialized: bool,
    /// The identity that locked the funds. Fixed at initialization.
    pub payer: Identity,
    /// The identity the settlements pay. Fixed at initialization.
    pub payee: Identity,
    /// Funds locked into the channel at initialization.
    pub total_amount: u64,
    /// Cumulative amount actually transferred to the payee so far.
    pub paid_amount: u64,
    /// Amount promised but not yet probabilistically resolved.
    pub accumulated_intent: u64,
    /// Settlement acceptance probability in basis points, within
    /// `[0, THRESHOLD_SCALE]`.
    pub probability_threshold: u16,
    /// Unix-time boundary after which mutating operations are rejected;
    /// zero means no expiry.
    pub expiry_timestamp: u64,
}

impl PaymentChannel {
    /// The record's invariant: the funds promised or already paid never
    /// exceed the locked total (measured with the same saturating addition
    /// the operations use), and the threshold is a valid basis-point value.
    pub open spec fn wf(self) -> bool {
        &&& self.paid_amount.saturating_add(self.accumulated_intent) <= self.total_amount
        &&& self.probability_threshold as u64 <= THRESHOLD_SCALE
    }

    /// Whether the channel is past its expiry at time `now`. A zero
    /// `expiry_timestamp` means the channel never expires.
    pub open spec fn spec_expired(self, now: u64) -> bool {
        self.expiry_timestamp > 0 && now > self.expiry_timestamp
    }

    /// Runtime form of [`Self::spec_expired`].
    pub fn is_expired(&self, now: u64) -> (r: bool)
        ensures
            r == self.spec_expired(now),
    {
        self.expiry_timestamp > 0 && now > self.expiry_timestamp
    }
}

/// When the invariant holds and the total is below the integer ceiling,
/// the saturating sum in [`PaymentChannel::wf`] is the exact sum: the
/// conservation statement `paid + intent <= total` holds over the
/// unbounded integers.
pub proof fn lemma_wf_is_exact_conservation(c: PaymentChannel)
    requires
        c.wf(),
        c.total_amount < u64::MAX,
    ensures
        c.paid_amount + c.accumulated_intent <= c.total_amount,
{
}

} // verus!
