//! The channel lifecycle operations.
//!
//! Each operation is a pure state transition: it takes the record, the
//! caller's context and the balances the ledger reports, and returns the new
//! record and balances together with the transfers the ledger must apply.
//! A refused operation returns an error and implies no change at all; the
//! embedder performs the transfers of a successful outcome as one atomic
//! step with the record update.
//!
//! Every addition and subtraction on funds saturates, exactly as the
//! accounting rules demand: relying on clamping instead of wrapping is part
//! of the invariant enforcement.

use vstd::prelude::*;
use crate::channel::{ChannelError, Identity, PaymentChannel, INITIAL_THRESHOLD, THRESHOLD_SCALE};
use crate::codec::{decode_instruction, spec_decode_instruction};
use crate::codec::PowerPayInstruction;

verus! {

/// The host-supplied facts one operation runs under: who calls, whether the
/// signature checked out, which payee is named, the clock reading, and the
/// reserve the ledger demands to keep the record's slot alive.
#[derive(Clone, Copy, PartialEq, Eq, Structural, Debug)]
pub struct OpContext {
    /// The identity submitting the request.
    pub caller: Identity,
    /// Whether the host verified the caller's signature.
    pub caller_signed: bool,
    /// The payee identity named by the request's accounts.
    pub payee: Identity,
    /// The clock's current Unix time in seconds.
    pub now: u64,
    /// The minimum balance the ledger requires the escrow slot to hold.
    pub rent_reserve: u64,
}

/// The three balances an operation may touch: the payer's and payee's own
/// funds and the escrow held under the channel's control.
#[derive(Clone, Copy, PartialEq, Eq, Structural, Debug)]
pub struct Balances {
    pub payer_balance: u64,
    pub payee_balance: u64,
    pub escrow_balance: u64,
}

/// What a successful initialization produces: the fresh record and the
/// balances after the payer funds the escrow.
#[derive(Clone, Copy, PartialEq, Eq, Structural, Debug)]
pub struct InitOutcome {
    pub record: PaymentChannel,
    pub balances: Balances,
    /// What the payer moved into the escrow: the locked amount plus the
    /// ledger's reserve.
    pub escrow_funding: u64,
}

/// What a successful settlement attempt produces. When the draw declines,
/// or there was no intent, `payee_transfer` is zero and record and balances
/// are unchanged.
#[derive(Clone, Copy, PartialEq, Eq, Structural, Debug)]
pub struct SettleOutcome {
    pub record: PaymentChannel,
    pub balances: Balances,
    pub payee_transfer: u64,
}

/// What closing produces: the record is gone, the escrow is empty, pending
/// intent went to the payee and the computed remainder went to the payer.
#[derive(Clone, Copy, PartialEq, Eq, Structural, Debug)]
pub struct CloseOutcome {
    pub balances: Balances,
    pub payee_transfer: u64,
    pub payer_refund: u64,
}

// ------------------------------------------------------------------
// Initialization
// ------------------------------------------------------------------

/// What the payer must move to open a channel locking `amount`: the amount
/// itself plus the ledger's reserve for the record's slot.
pub open spec fn spec_init_funding(rent_reserve: u64, amount: u64) -> u64 {
    rent_reserve.saturating_add(amount)
}

/// The error initialization stops at, if any: an unsigned request, a slot
/// already carrying an initialized record, or a payer who cannot fund the
/// escrow.
pub open spec fn spec_init_check(
    ctx: OpContext,
    balances: Balances,
    slot_vacant: bool,
    amount: u64,
) -> Option<ChannelError> {
    if !ctx.caller_signed {
        Some(ChannelError::Unauthenticated)
    } else if !slot_vacant {
        Some(ChannelError::AllocationFailed)
    } else if balances.payer_balance < spec_init_funding(ctx.rent_reserve, amount) {
        Some(ChannelError::AllocationFailed)
    } else {
        None
    }
}

/// The record a successful initialization writes.
pub open spec fn spec_init_record(ctx: OpContext, amount: u64, expiry_timestamp: u64) -> PaymentChannel {
    (PaymentChannel {
        is_initialized: true,
        payer: ctx.caller,
        payee: ctx.payee,
        total_amount: amount,
        paid_amount: 0,
        accumulated_intent: 0,
        probability_threshold: INITIAL_THRESHOLD,
        expiry_timestamp,
    })
}

/// The balances after a successful initialization: the payer funded the
/// escrow with the locked amount plus the reserve.
pub open spec fn spec_init_balances(ctx: OpContext, balances: Balances, amount: u64) -> Balances {
    (Balances {
        payer_balance: (balances.payer_balance - spec_init_funding(ctx.rent_reserve, amount)) as u64,
        payee_balance: balances.payee_balance,
        escrow_balance: balances.escrow_balance.saturating_add(
            spec_init_funding(ctx.rent_reserve, amount),
        ),
    })
}

/// Open a new channel: lock `amount` from the payer into the escrow and
/// write a fresh record naming the caller as payer.
///
/// `slot_vacant` is the ledger's word that the target slot carries no
/// initialized record; allocation is refused otherwise.
pub fn process_init_channel(
    ctx: &OpContext,
    balances: &Balances,
    slot_vacant: bool,
    amount: u64,
    expiry_timestamp: u64,
) -> (r: Result<InitOutcome, ChannelError>)
    ensures
        match spec_init_check(*ctx, *balances, slot_vacant, amount) {
            Some(e) => r == Err::<InitOutcome, ChannelError>(e),
            None => r == Ok::<InitOutcome, ChannelError>(
                (InitOutcome {
                    record: spec_init_record(*ctx, amount, expiry_timestamp),
                    balances: spec_init_balances(*ctx, *balances, amount),
                    escrow_funding: spec_init_funding(ctx.rent_reserve, amount),
                }),
            ),
        },
        // A fresh record satisfies the accounting invariant outright.
        r matches Ok(o) ==> o.record.wf(),
        // Initialization conserves funds: what leaves the payer enters the escrow.
        r matches Ok(o) ==> {
            &&& o.balances.payer_balance + o.escrow_funding == balances.payer_balance
            &&& o.balances.escrow_balance == balances.escrow_balance.saturating_add(o.escrow_funding)
            &&& o.balances.payee_balance == balances.payee_balance
        },
{
    if !ctx.caller_signed {
        return Err(ChannelError::Unauthenticated);
    }
    if !slot_vacant {
        return Err(ChannelError::AllocationFailed);
    }
    let funding = ctx.rent_reserve.saturating_add(amount);
    if balances.payer_balance < funding {
        return Err(ChannelError::AllocationFailed);
    }
    let record = PaymentChannel {
        is_initialized: true,
        payer: ctx.caller,
        payee: ctx.payee,
        total_amount: amount,
        paid_amount: 0,
        accumulated_intent: 0,
        probability_threshold: INITIAL_THRESHOLD,
        expiry_timestamp,
    };
    Ok(InitOutcome {
        record,
        balances: Balances {
            payer_balance: balances.payer_balance - funding,
            payee_balance: balances.payee_balance,
            escrow_balance: balances.escrow_balance.saturating_add(funding),
        },
        escrow_funding: funding,
    })
}

// ------------------------------------------------------------------
// Accumulating intent
// ------------------------------------------------------------------

/// The error intent accumulation stops at, if any. The conservation check
/// measures the would-be intent with the same saturating sums the update
/// uses.
pub open spec fn spec_add_intent_check(
    c: PaymentChannel,
    ctx: OpContext,
    amount: u64,
) -> Option<ChannelError> {
    if !ctx.caller_signed {
        Some(ChannelError::Unauthenticated)
    } else if !c.is_initialized {
        Some(ChannelError::RecordNotInitialized)
    } else if c.payer != ctx.caller {
        Some(ChannelError::IdentityMismatch)
    } else if c.spec_expired(ctx.now) {
        Some(ChannelError::ExpiredChannel)
    } else if c.paid_amount.saturating_add(c.accumulated_intent.saturating_add(amount))
        > c.total_amount {
        Some(ChannelError::InsufficientFunds)
    } else {
        None
    }
}

/// The record after intent accumulation succeeds: only the accumulated
/// intent grows.
pub open spec fn spec_add_intent_record(c: PaymentChannel, amount: u64) -> PaymentChannel {
    (PaymentChannel { accumulated_intent: c.accumulated_intent.saturating_add(amount), ..c })
}

/// Accumulate a micropayment intent of `amount` on the channel. A pure
/// accounting update: no funds move until a later settlement resolves the
/// intent.
pub fn process_add_micropayment_intent(
    record: &PaymentChannel,
    ctx: &OpContext,
    amount: u64,
) -> (r: Result<PaymentChannel, ChannelError>)
    ensures
        match spec_add_intent_check(*record, *ctx, amount) {
            Some(e) => r == Err::<PaymentChannel, ChannelError>(e),
            None => r == Ok::<PaymentChannel, ChannelError>(spec_add_intent_record(*record, amount)),
        },
        // The accounting invariant is preserved.
        record.wf() ==> (r matches Ok(c2) ==> c2.wf()),
        // Payer and payee are immutable for the life of the record, and an
        // initialized record never reverts to uninitialized.
        r matches Ok(c2) ==> {
            &&& c2.payer == record.payer
            &&& c2.payee == record.payee
            &&& c2.is_initialized == record.is_initialized
            &&& c2.total_amount == record.total_amount
            &&& c2.paid_amount == record.paid_amount
            &&& c2.probability_threshold == record.probability_threshold
            &&& c2.expiry_timestamp == record.expiry_timestamp
        },
{
    if !ctx.caller_signed {
        return Err(ChannelError::Unauthenticated);
    }
    if !record.is_initialized {
        return Err(ChannelError::RecordNotInitialized);
    }
    if !(record.payer == ctx.caller) {
        return Err(ChannelError::IdentityMismatch);
    }
    if record.is_expired(ctx.now) {
        return Err(ChannelError::ExpiredChannel);
    }
    let new_intent = record.accumulated_intent.saturating_add(amount);
    if record.paid_amount.saturating_add(new_intent) > record.total_amount {
        return Err(ChannelError::InsufficientFunds);
    }
    Ok(PaymentChannel { accumulated_intent: new_intent, ..*record })
}

// ------------------------------------------------------------------
// Probabilistic settlement
// ------------------------------------------------------------------

/// The pseudo-random draw: the clock reading, the caller-supplied seed and
/// the accumulated intent are folded together with saturating addition and
/// reduced to a value in `[0, THRESHOLD_SCALE)`.
///
/// The seed comes from the payer, so this is not a fair coin flip: a payer
/// who can predict the clock has partial influence over the draw. That
/// weakness is part of the scheme and is reproduced here deliberately.
pub open spec fn spec_draw_value(now: u64, random_seed: u64, intent: u64) -> u64 {
    now.saturating_add(random_seed).saturating_add(intent) % THRESHOLD_SCALE
}

/// Whether a draw at time `now` with seed `random_seed` settles intent
/// `intent` under `threshold`: the draw must be strictly below the
/// threshold, so a threshold of zero never settles and a draw equal to the
/// threshold is declined.
pub open spec fn spec_settle_decision(
    now: u64,
    random_seed: u64,
    intent: u64,
    threshold: u16,
) -> bool {
    spec_draw_value(now, random_seed, intent) < threshold as u64
}

/// Whether the settlement attempt actually pays: there must be pending
/// intent and the draw must accept.
pub open spec fn spec_settle_executes(c: PaymentChannel, ctx: OpContext, random_seed: u64) -> bool {
    c.accumulated_intent != 0 && spec_settle_decision(
        ctx.now,
        random_seed,
        c.accumulated_intent,
        c.probability_threshold,
    )
}

/// The error a settlement attempt stops at, if any. Liquidity is only
/// demanded when the draw accepts: the escrow must then cover the reserve
/// plus the payout.
pub open spec fn spec_settle_check(
    c: PaymentChannel,
    ctx: OpContext,
    balances: Balances,
    random_seed: u64,
) -> Option<ChannelError> {
    if !ctx.caller_signed {
        Some(ChannelError::Unauthenticated)
    } else if !c.is_initialized {
        Some(ChannelError::RecordNotInitialized)
    } else if c.payer != ctx.caller || c.payee != ctx.payee {
        Some(ChannelError::IdentityMismatch)
    } else if c.spec_expired(ctx.now) {
        Some(ChannelError::ExpiredChannel)
    } else if spec_settle_executes(c, ctx, random_seed) && balances.escrow_balance
        < ctx.rent_reserve.saturating_add(c.accumulated_intent) {
        Some(ChannelError::InsufficientFunds)
    } else {
        None
    }
}

/// The outcome of an accepted settlement attempt: when the draw accepts,
/// the whole accumulated intent moves from the escrow to the payee and
/// becomes paid; otherwise the draw is discarded and nothing changes.
pub open spec fn spec_settle_outcome(
    c: PaymentChannel,
    ctx: OpContext,
    balances: Balances,
    random_seed: u64,
) -> SettleOutcome {
    if spec_settle_executes(c, ctx, random_seed) {
        (SettleOutcome {
            record: PaymentChannel {
                paid_amount: c.paid_amount.saturating_add(c.accumulated_intent),
                accumulated_intent: 0,
                ..c
            },
            balances: Balances {
                escrow_balance: balances.escrow_balance.saturating_sub(c.accumulated_intent),
                payee_balance: balances.payee_balance.saturating_add(c.accumulated_intent),
                ..balances
            },
            payee_transfer: c.accumulated_intent,
        })
    } else {
        (SettleOutcome { record: c, balances, payee_transfer: 0 })
    }
}

/// Attempt a probabilistic settlement of the accumulated intent.
///
/// With no intent pending this is a successful no-op. Otherwise a
/// pseudo-random draw derived from the clock, the caller's seed and the
/// intent decides: strictly below the record's threshold, the whole intent
/// is paid out to the payee; at or above it, the draw is discarded and the
/// intent stays for a future attempt.
pub fn process_probabilistic_payment(
    record: &PaymentChannel,
    ctx: &OpContext,
    balances: &Balances,
    random_seed: u64,
) -> (r: Result<SettleOutcome, ChannelError>)
    ensures
        match spec_settle_check(*record, *ctx, *balances, random_seed) {
            Some(e) => r == Err::<SettleOutcome, ChannelError>(e),
            None => r == Ok::<SettleOutcome, ChannelError>(
                spec_settle_outcome(*record, *ctx, *balances, random_seed),
            ),
        },
        // With no pending intent a permitted attempt changes nothing and
        // transfers nothing.
        record.accumulated_intent == 0 ==> (r matches Ok(o) ==> {
            &&& o.record == *record
            &&& o.balances == *balances
            &&& o.payee_transfer == 0
        }),
        // The accounting invariant is preserved.
        record.wf() ==> (r matches Ok(o) ==> o.record.wf()),
        // Payer, payee and the locked total are immutable, and the record
        // stays initialized.
        r matches Ok(o) ==> {
            &&& o.record.payer == record.payer
            &&& o.record.payee == record.payee
            &&& o.record.is_initialized == record.is_initialized
            &&& o.record.total_amount == record.total_amount
            &&& o.record.probability_threshold == record.probability_threshold
            &&& o.record.expiry_timestamp == record.expiry_timestamp
        },
{
    if !ctx.caller_signed {
        return Err(ChannelError::Unauthenticated);
    }
    if !record.is_initialized {
        return Err(ChannelError::RecordNotInitialized);
    }
    if !(record.payer == ctx.caller) || !(record.payee == ctx.payee) {
        return Err(ChannelError::IdentityMismatch);
    }
    if record.is_expired(ctx.now) {
        return Err(ChannelError::ExpiredChannel);
    }
    if record.accumulated_intent == 0 {
        // Nothing accumulated: succeed without touching anything.
        return Ok(SettleOutcome { record: *record, balances: *balances, payee_transfer: 0 });
    }

    // Fold clock, seed and intent into a draw in [0, THRESHOLD_SCALE).
    let probability_seed = ctx.now.saturating_add(random_seed).saturating_add(
        record.accumulated_intent,
    );
    let random_value = probability_seed % THRESHOLD_SCALE;
    let execute_payment = random_value < record.probability_threshold as u64;

    if execute_payment {
        let payment_amount = record.accumulated_intent;
        // The escrow must keep the ledger's reserve and still cover the payout.
        if balances.escrow_balance < ctx.rent_reserve.saturating_add(payment_amount) {
            return Err(ChannelError::InsufficientFunds);
        }
        Ok(SettleOutcome {
            record: PaymentChannel {
                paid_amount: record.paid_amount.saturating_add(payment_amount),
                accumulated_intent: 0,
                ..*record
            },
            balances: Balances {
                escrow_balance: balances.escrow_balance.saturating_sub(payment_amount),
                payee_balance: balances.payee_balance.saturating_add(payment_amount),
                ..*balances
            },
            payee_transfer: payment_amount,
        })
    } else {
        // Draw declined: the intent stays accumulated for a future attempt.
        Ok(SettleOutcome { record: *record, balances: *balances, payee_transfer: 0 })
    }
}

// ------------------------------------------------------------------
// Closing
// ------------------------------------------------------------------

/// The error closing stops at, if any. Closing enforces no expiry: a
/// channel can always be wound down.
pub open spec fn spec_close_check(c: PaymentChannel, ctx: OpContext) -> Option<ChannelError> {
    if !ctx.caller_signed {
        Some(ChannelError::Unauthenticated)
    } else if !c.is_initialized {
        Some(ChannelError::RecordNotInitialized)
    } else if c.payer != ctx.caller || c.payee != ctx.payee {
        Some(ChannelError::IdentityMismatch)
    } else {
        None
    }
}

/// What goes back to the payer on close: the escrow balance at entry, less
/// the intent settled on the way out, clamped at zero. Earlier payouts
/// already left the escrow when they were settled, so nothing else is
/// deducted: together with the intent transfer this empties the escrow
/// without creating or destroying value.
pub open spec fn spec_close_refund(escrow_balance: u64, intent: u64) -> u64 {
    escrow_balance.saturating_sub(intent)
}

/// The outcome of closing: pending intent becomes a guaranteed payment to
/// the payee, the computed remainder goes to the payer, and the escrow is
/// emptied.
pub open spec fn spec_close_outcome(c: PaymentChannel, balances: Balances) -> CloseOutcome {
    let refund = spec_close_refund(balances.escrow_balance, c.accumulated_intent);
    (CloseOutcome {
        balances: Balances {
            payer_balance: balances.payer_balance.saturating_add(refund),
            payee_balance: balances.payee_balance.saturating_add(c.accumulated_intent),
            escrow_balance: 0,
        },
        payee_transfer: c.accumulated_intent,
        payer_refund: refund,
    })
}

/// Close the channel and settle the final balance. Any pending intent is
/// paid to the payee unconditionally, the computed remainder returns to the
/// payer, and the record's slot is emptied; the channel cannot be used
/// again.
pub fn process_close_channel(
    record: &PaymentChannel,
    ctx: &OpContext,
    balances: &Balances,
) -> (r: Result<CloseOutcome, ChannelError>)
    ensures
        match spec_close_check(*record, *ctx) {
            Some(e) => r == Err::<CloseOutcome, ChannelError>(e),
            None => r == Ok::<CloseOutcome, ChannelError>(spec_close_outcome(*record, *balances)),
        },
        // The escrow is always fully drained, and the pending intent always
        // reaches the payee.
        r matches Ok(o) ==> {
            &&& o.balances.escrow_balance == 0
            &&& o.payee_transfer == record.accumulated_intent
            &&& o.balances.payee_balance == balances.payee_balance.saturating_add(
                record.accumulated_intent,
            )
            &&& o.balances.payer_balance == balances.payer_balance.saturating_add(o.payer_refund)
        },
        // Conservation: whenever the escrow covers the pending intent, what
        // leaves it on close is exactly what it held.
        balances.escrow_balance >= record.accumulated_intent ==> (r matches Ok(o)
            ==> o.payee_transfer + o.payer_refund == balances.escrow_balance),
{
    if !ctx.caller_signed {
        return Err(ChannelError::Unauthenticated);
    }
    if !record.is_initialized {
        return Err(ChannelError::RecordNotInitialized);
    }
    if !(record.payer == ctx.caller) || !(record.payee == ctx.payee) {
        return Err(ChannelError::IdentityMismatch);
    }

    // Any accumulated intent is settled unconditionally on the way out.
    let remaining_intent = record.accumulated_intent;

    // The remainder for the payer: whatever the escrow still holds beyond
    // the intent settled above. Earlier payouts already left the escrow
    // when they were settled.
    let remaining_balance = balances.escrow_balance.saturating_sub(remaining_intent);

    Ok(CloseOutcome {
        balances: Balances {
            payer_balance: balances.payer_balance.saturating_add(remaining_balance),
            payee_balance: balances.payee_balance.saturating_add(remaining_intent),
            escrow_balance: 0,
        },
        payee_transfer: remaining_intent,
        payer_refund: remaining_balance,
    })
}

// ------------------------------------------------------------------
// Dispatch
// ------------------------------------------------------------------

/// One slot of the ledger together with the balances around it, after an
/// operation: `slot` is `None` when the channel is closed or was never
/// opened.
#[derive(Clone, Copy, PartialEq, Eq, Structural, Debug)]
pub struct StepOutcome {
    pub slot: Option<PaymentChannel>,
    pub balances: Balances,
}

/// Whether a slot can take a fresh channel: it holds nothing, or only an
/// uninitialized record.
pub open spec fn spec_slot_vacant(slot: Option<PaymentChannel>) -> bool {
    match slot {
        None => true,
        Some(c) => !c.is_initialized,
    }
}

/// The full transition one request makes: decode the instruction bytes and
/// run the named operation against the slot and the balances.
pub open spec fn spec_step(
    data: Seq<u8>,
    ctx: OpContext,
    slot: Option<PaymentChannel>,
    balances: Balances,
) -> Result<StepOutcome, ChannelError> {
    match spec_decode_instruction(data) {
        None => Err(ChannelError::MalformedRequest),
        Some(PowerPayInstruction::InitChannel { amount, expiry_timestamp }) => {
            match spec_init_check(ctx, balances, spec_slot_vacant(slot), amount) {
                Some(e) => Err(e),
                None => Ok(
                    (StepOutcome {
                        slot: Some(spec_init_record(ctx, amount, expiry_timestamp)),
                        balances: spec_init_balances(ctx, balances, amount),
                    }),
                ),
            }
        },
        Some(PowerPayInstruction::AddMicroPaymentIntent { amount }) => {
            match slot {
                None => Err(ChannelError::RecordNotInitialized),
                Some(c) => match spec_add_intent_check(c, ctx, amount) {
                    Some(e) => Err(e),
                    None => Ok(
                        (StepOutcome { slot: Some(spec_add_intent_record(c, amount)), balances }),
                    ),
                },
            }
        },
        Some(PowerPayInstruction::ProcessProbabilisticPayment { random_seed }) => {
            match slot {
                None => Err(ChannelError::RecordNotInitialized),
                Some(c) => match spec_settle_check(c, ctx, balances, random_seed) {
                    Some(e) => Err(e),
                    None => {
                        let o = spec_settle_outcome(c, ctx, balances, random_seed);
                        Ok((StepOutcome { slot: Some(o.record), balances: o.balances }))
                    },
                },
            }
        },
        Some(PowerPayInstruction::CloseChannel) => {
            match slot {
                None => Err(ChannelError::RecordNotInitialized),
                Some(c) => match spec_close_check(c, ctx) {
                    Some(e) => Err(e),
                    None => Ok(
                        (StepOutcome { slot: None, balances: spec_close_outcome(c, balances).balances }),
                    ),
                },
            }
        },
    }
}

/// Decode one request and run it against the channel's slot.
///
/// The record the embedder loads for the slot is passed in `slot` (`None`
/// for an empty slot); the returned outcome carries the record to store
/// back, or `None` when the channel was closed and the slot must be
/// deleted.
pub fn process_instruction(
    instruction_data: &[u8],
    ctx: &OpContext,
    slot: &Option<PaymentChannel>,
    balances: &Balances,
) -> (r: Result<StepOutcome, ChannelError>)
    ensures
        r == spec_step(instruction_data@, *ctx, *slot, *balances),
{
    let instruction = match decode_instruction(instruction_data) {
        Ok(i) => i,
        Err(e) => {
            return Err(e);
        },
    };
    match instruction {
        PowerPayInstruction::InitChannel { amount, expiry_timestamp } => {
            let vacant = match slot {
                None => true,
                Some(c) => !c.is_initialized,
            };
            match process_init_channel(ctx, balances, vacant, amount, expiry_timestamp) {
                Ok(o) => Ok(StepOutcome { slot: Some(o.record), balances: o.balances }),
                Err(e) => Err(e),
            }
        },
        PowerPayInstruction::AddMicroPaymentIntent { amount } => {
            match slot {
                None => Err(ChannelError::RecordNotInitialized),
                Some(c) => match process_add_micropayment_intent(c, ctx, amount) {
                    Ok(c2) => Ok(StepOutcome { slot: Some(c2), balances: *balances }),
                    Err(e) => Err(e),
                },
            }
        },
        PowerPayInstruction::ProcessProbabilisticPayment { random_seed } => {
            match slot {
                None => Err(ChannelError::RecordNotInitialized),
                Some(c) => match process_probabilistic_payment(c, ctx, balances, random_seed) {
                    Ok(o) => Ok(StepOutcome { slot: Some(o.record), balances: o.balances }),
                    Err(e) => Err(e),
                },
            }
        },
        PowerPayInstruction::CloseChannel => {
            match slot {
                None => Err(ChannelError::RecordNotInitialized),
                Some(c) => match process_close_channel(c, ctx, balances) {
                    Ok(o) => Ok(StepOutcome { slot: None, balances: o.balances }),
                    Err(e) => Err(e),
                },
            }
        },
    }
}

} // verus!
