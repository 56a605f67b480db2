//! The channel's accounting laws, stated over the operations' own
//! transition functions and proved once and for all.

use vstd::prelude::*;
use crate::channel::{ChannelError, PaymentChannel};
use crate::ops::{
    spec_add_intent_check, spec_close_check, spec_close_outcome, spec_draw_value,
    spec_settle_check, spec_settle_decision, spec_settle_executes, spec_settle_outcome, spec_step,
    Balances, OpContext, SettleOutcome, StepOutcome,
};

verus! {

/// Conservation, one step: an operation run against a record satisfying the
/// accounting invariant leaves a record satisfying it — whatever request
/// bytes, caller, clock reading or balances the step sees.
pub proof fn lemma_step_preserves_conservation(
    data: Seq<u8>,
    ctx: OpContext,
    slot: Option<PaymentChannel>,
    balances: Balances,
)
    requires
        slot matches Some(c) ==> c.wf(),
    ensures
        spec_step(data, ctx, slot, balances) matches Ok(o) ==> (o.slot matches Some(c2)
            ==> c2.wf()),
{
}

/// One request together with the facts of its moment: what reaches the
/// dispatcher in one step.
pub struct StepInput {
    pub data: Seq<u8>,
    pub ctx: OpContext,
}

/// Run a whole sequence of requests, first to last. A refused request
/// changes nothing, exactly as the operations promise.
pub open spec fn spec_run(inputs: Seq<StepInput>, s: StepOutcome) -> StepOutcome
    decreases inputs.len(),
{
    if inputs.len() == 0 {
        s
    } else {
        let s1 = match spec_step(inputs[0].data, inputs[0].ctx, s.slot, s.balances) {
            Ok(o) => o,
            Err(_) => s,
        };
        spec_run(inputs.drop_first(), s1)
    }
}

/// Conservation, every reachable state: starting from a state whose record
/// satisfies the accounting invariant (or whose slot is empty), after any
/// sequence of requests whatsoever the record still satisfies
/// `paid_amount + accumulated_intent <= total_amount`.
pub proof fn lemma_reachable_conservation(inputs: Seq<StepInput>, s: StepOutcome)
    requires
        s.slot matches Some(c) ==> c.wf(),
    ensures
        spec_run(inputs, s).slot matches Some(c2) ==> c2.wf(),
    decreases inputs.len(),
{
    if inputs.len() > 0 {
        let s1 = match spec_step(inputs[0].data, inputs[0].ctx, s.slot, s.balances) {
            Ok(o) => o,
            Err(_) => s,
        };
        lemma_step_preserves_conservation(inputs[0].data, inputs[0].ctx, s.slot, s.balances);
        lemma_reachable_conservation(inputs.drop_first(), s1);
    }
}

/// Payer/payee immutability: a step that still leaves a record in the slot
/// leaves its payer and payee untouched, and an initialized record never
/// reverts to uninitialized. The only steps that remove the record are a
/// successful close; no step replaces an initialized record.
pub proof fn lemma_step_preserves_parties(
    data: Seq<u8>,
    ctx: OpContext,
    c: PaymentChannel,
    balances: Balances,
)
    requires
        c.is_initialized,
    ensures
        spec_step(data, ctx, Some(c), balances) matches Ok(o) ==> (o.slot matches Some(c2) ==> {
            &&& c2.payer == c.payer
            &&& c2.payee == c.payee
            &&& c2.is_initialized
            &&& c2.total_amount == c.total_amount
            &&& c2.expiry_timestamp == c.expiry_timestamp
        }),
{
}

/// A settlement attempt with nothing accumulated is a no-op: it can be
/// refused for want of a signature, an initialized record, matching
/// identities or time — never for funds — and when permitted it changes
/// neither the record nor any balance and transfers nothing.
pub proof fn lemma_settle_without_intent_is_noop(
    c: PaymentChannel,
    ctx: OpContext,
    balances: Balances,
    random_seed: u64,
)
    requires
        c.accumulated_intent == 0,
    ensures
        spec_settle_check(c, ctx, balances, random_seed) != Some(ChannelError::InsufficientFunds),
        spec_settle_outcome(c, ctx, balances, random_seed) == (SettleOutcome {
            record: c,
            balances,
            payee_transfer: 0,
        }),
{
}

/// Threshold determinism: the settle/skip decision is a function of the
/// clock reading, the seed, the accumulated intent and the stored
/// threshold alone. Two attempts that agree on those four agree on the
/// decision, whatever else differs.
pub proof fn lemma_settle_decision_deterministic(
    c1: PaymentChannel,
    c2: PaymentChannel,
    ctx1: OpContext,
    ctx2: OpContext,
    random_seed: u64,
)
    requires
        c1.accumulated_intent == c2.accumulated_intent,
        c1.probability_threshold == c2.probability_threshold,
        ctx1.now == ctx2.now,
    ensures
        spec_settle_executes(c1, ctx1, random_seed) == spec_settle_executes(c2, ctx2, random_seed),
{
}

/// Threshold boundary: the comparison is strict. A draw equal to the
/// threshold does not settle; a draw one below a positive threshold does.
pub proof fn lemma_threshold_boundary(now: u64, random_seed: u64, intent: u64, threshold: u16)
    ensures
        spec_draw_value(now, random_seed, intent) == threshold as u64 ==> !spec_settle_decision(
            now,
            random_seed,
            intent,
            threshold,
        ),
        threshold > 0 && spec_draw_value(now, random_seed, intent) == threshold as u64 - 1
            ==> spec_settle_decision(now, random_seed, intent, threshold),
{
}

/// Close settles all: the escrow ends empty, the pending intent reaches the
/// payee, the rest of the escrow reaches the payer, and what leaves the
/// escrow is exactly what it held — no value created or destroyed. The
/// overflow bounds only keep the receiving balances below the integer
/// ceiling, where the ledger's saturating credit would clamp.
pub proof fn lemma_close_conserves_funds(c: PaymentChannel, ctx: OpContext, balances: Balances)
    requires
        spec_close_check(c, ctx) is None,
        balances.escrow_balance >= c.accumulated_intent,
        balances.payee_balance + c.accumulated_intent <= u64::MAX,
        balances.payer_balance + balances.escrow_balance - c.accumulated_intent <= u64::MAX,
    ensures
        ({
            let o = spec_close_outcome(c, balances);
            &&& o.balances.escrow_balance == 0
            &&& o.payee_transfer == c.accumulated_intent
            &&& o.payee_transfer + o.payer_refund == balances.escrow_balance
            &&& o.balances.payer_balance + o.balances.payee_balance == balances.payer_balance
                + balances.payee_balance + balances.escrow_balance
        }),
{
}

/// Expiry enforcement: past a non-zero expiry, a correctly signed and
/// addressed request to accumulate intent or to settle fails with
/// `ExpiredChannel`, while closing is still permitted.
pub proof fn lemma_expiry_enforcement(
    c: PaymentChannel,
    ctx: OpContext,
    balances: Balances,
    amount: u64,
    random_seed: u64,
)
    requires
        ctx.caller_signed,
        c.is_initialized,
        c.payer == ctx.caller,
        c.payee == ctx.payee,
        c.expiry_timestamp != 0,
        ctx.now > c.expiry_timestamp,
    ensures
        spec_add_intent_check(c, ctx, amount) == Some(ChannelError::ExpiredChannel),
        spec_settle_check(c, ctx, balances, random_seed) == Some(ChannelError::ExpiredChannel),
        spec_close_check(c, ctx) is None,
{
}

} // verus!
