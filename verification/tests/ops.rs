use powerpay::channel::{ChannelError, Identity, PaymentChannel};
use powerpay::codec::{encode_instruction, PowerPayInstruction};
use powerpay::ops::{
    process_add_micropayment_intent, process_close_channel, process_init_channel,
    process_instruction, process_probabilistic_payment, Balances, OpContext,
};

fn payer() -> Identity {
    Identity { w0: 1, w1: 2, w2: 3, w3: 4 }
}

fn payee() -> Identity {
    Identity { w0: 5, w1: 6, w2: 7, w3: 8 }
}

fn stranger() -> Identity {
    Identity { w0: 9, w1: 9, w2: 9, w3: 9 }
}

const RENT: u64 = 10;

fn ctx_at(now: u64) -> OpContext {
    OpContext { caller: payer(), caller_signed: true, payee: payee(), now, rent_reserve: RENT }
}

fn start_balances() -> Balances {
    Balances { payer_balance: 2_000_000, payee_balance: 0, escrow_balance: 0 }
}

fn open_channel(amount: u64, expiry_timestamp: u64) -> (PaymentChannel, Balances) {
    let o = process_init_channel(&ctx_at(0), &start_balances(), true, amount, expiry_timestamp)
        .expect("initialization should succeed");
    (o.record, o.balances)
}

#[test]
fn init_writes_fresh_record() {
    let o = process_init_channel(&ctx_at(0), &start_balances(), true, 1_000_000, 0)
        .expect("initialization should succeed");
    assert!(o.record.is_initialized);
    assert_eq!(o.record.payer, payer());
    assert_eq!(o.record.payee, payee());
    assert_eq!(o.record.total_amount, 1_000_000);
    assert_eq!(o.record.paid_amount, 0);
    assert_eq!(o.record.accumulated_intent, 0);
    assert_eq!(o.record.probability_threshold, 100);
    assert_eq!(o.record.expiry_timestamp, 0);
    // The payer funded the escrow with the amount plus the reserve.
    assert_eq!(o.escrow_funding, 1_000_010);
    assert_eq!(o.balances.payer_balance, 999_990);
    assert_eq!(o.balances.escrow_balance, 1_000_010);
    assert_eq!(o.balances.payee_balance, 0);
}

#[test]
fn init_requires_signature() {
    let mut ctx = ctx_at(0);
    ctx.caller_signed = false;
    let r = process_init_channel(&ctx, &start_balances(), true, 1_000, 0);
    assert_eq!(r.unwrap_err(), ChannelError::Unauthenticated);
}

#[test]
fn init_refuses_taken_slot() {
    let r = process_init_channel(&ctx_at(0), &start_balances(), false, 1_000, 0);
    assert_eq!(r.unwrap_err(), ChannelError::AllocationFailed);
}

#[test]
fn init_refuses_poor_payer() {
    let b = Balances { payer_balance: 1_000, payee_balance: 0, escrow_balance: 0 };
    // funding = 1_000 + RENT exceeds the payer's balance by the reserve.
    let r = process_init_channel(&ctx_at(0), &b, true, 1_000, 0);
    assert_eq!(r.unwrap_err(), ChannelError::AllocationFailed);
}

#[test]
fn add_intent_accumulates() {
    let (c, _) = open_channel(1_000_000, 0);
    let c2 = process_add_micropayment_intent(&c, &ctx_at(0), 500_000).expect("within total");
    assert_eq!(c2.accumulated_intent, 500_000);
    // Everything else is untouched.
    assert_eq!(c2.paid_amount, 0);
    assert_eq!(c2.total_amount, 1_000_000);
    assert_eq!(c2.payer, c.payer);
    assert_eq!(c2.payee, c.payee);
    let c3 = process_add_micropayment_intent(&c2, &ctx_at(0), 500_000).expect("reaches total");
    assert_eq!(c3.accumulated_intent, 1_000_000);
}

#[test]
fn add_intent_refuses_stranger() {
    // A caller that is not the stored payer is turned away.
    let (c, _) = open_channel(1_000_000, 0);
    let mut ctx = ctx_at(0);
    ctx.caller = stranger();
    let r = process_add_micropayment_intent(&c, &ctx, 1);
    assert_eq!(r.unwrap_err(), ChannelError::IdentityMismatch);
}

#[test]
fn add_intent_requires_signature() {
    let (c, _) = open_channel(1_000_000, 0);
    let mut ctx = ctx_at(0);
    ctx.caller_signed = false;
    let r = process_add_micropayment_intent(&c, &ctx, 1);
    assert_eq!(r.unwrap_err(), ChannelError::Unauthenticated);
}

#[test]
fn add_intent_requires_initialized_record() {
    let (mut c, _) = open_channel(1_000_000, 0);
    c.is_initialized = false;
    let r = process_add_micropayment_intent(&c, &ctx_at(0), 1);
    assert_eq!(r.unwrap_err(), ChannelError::RecordNotInitialized);
}

#[test]
fn add_intent_refuses_exceeding_total() {
    let (c, _) = open_channel(1_000, 0);
    let r = process_add_micropayment_intent(&c, &ctx_at(0), 1_001);
    assert_eq!(r.unwrap_err(), ChannelError::InsufficientFunds);
    // Also when paid and pending intent together would exceed the total.
    let c2 = process_add_micropayment_intent(&c, &ctx_at(0), 600).unwrap();
    let r = process_add_micropayment_intent(&c2, &ctx_at(0), 401);
    assert_eq!(r.unwrap_err(), ChannelError::InsufficientFunds);
}

#[test]
fn add_intent_refuses_expired_channel() {
    let (c, _) = open_channel(1_000_000, 5);
    let r = process_add_micropayment_intent(&c, &ctx_at(6), 1);
    assert_eq!(r.unwrap_err(), ChannelError::ExpiredChannel);
    // At the boundary the channel is still usable.
    let c2 = process_add_micropayment_intent(&c, &ctx_at(5), 1).expect("not yet expired");
    assert_eq!(c2.accumulated_intent, 1);
}

#[test]
fn settle_executes_when_draw_is_below_threshold() {
    let (c, b) = open_channel(1_000_000, 0);
    let c = process_add_micropayment_intent(&c, &ctx_at(0), 500_000).unwrap();
    // draw = (0 + 50 + 500_000) % 10_000 = 50 < 100: the payment executes.
    let o = process_probabilistic_payment(&c, &ctx_at(0), &b, 50).expect("permitted");
    assert_eq!(o.payee_transfer, 500_000);
    assert_eq!(o.record.paid_amount, 500_000);
    assert_eq!(o.record.accumulated_intent, 0);
    assert_eq!(o.balances.escrow_balance, 500_010);
    assert_eq!(o.balances.payee_balance, 500_000);
    assert_eq!(o.balances.payer_balance, b.payer_balance);
}

#[test]
fn settle_skips_when_draw_is_at_or_above_threshold() {
    let (c, b) = open_channel(1_000_000, 0);
    let c = process_add_micropayment_intent(&c, &ctx_at(0), 500_000).unwrap();
    // draw = (0 + 150 + 500_000) % 10_000 = 150 >= 100: the draw is discarded.
    let o = process_probabilistic_payment(&c, &ctx_at(0), &b, 150).expect("permitted");
    assert_eq!(o.payee_transfer, 0);
    assert_eq!(o.record, c);
    assert_eq!(o.balances, b);
}

#[test]
fn settle_draw_equal_to_threshold_does_not_execute() {
    let (c, b) = open_channel(1_000_000, 0);
    let c = process_add_micropayment_intent(&c, &ctx_at(0), 500_000).unwrap();
    // draw = (0 + 100 + 500_000) % 10_000 = 100 == threshold: strictly-below
    // comparison, so no payment.
    let o = process_probabilistic_payment(&c, &ctx_at(0), &b, 100).expect("permitted");
    assert_eq!(o.payee_transfer, 0);
    assert_eq!(o.record, c);
}

#[test]
fn settle_draw_one_below_threshold_executes() {
    let (c, b) = open_channel(1_000_000, 0);
    let c = process_add_micropayment_intent(&c, &ctx_at(0), 500_000).unwrap();
    // draw = (0 + 99 + 500_000) % 10_000 = 99 == threshold - 1: executes.
    let o = process_probabilistic_payment(&c, &ctx_at(0), &b, 99).expect("permitted");
    assert_eq!(o.payee_transfer, 500_000);
}

#[test]
fn settle_without_intent_is_a_noop() {
    let (c, b) = open_channel(1_000_000, 0);
    // Whatever the seed, nothing changes and nothing is transferred.
    for seed in [0u64, 1, 99, 100, u64::MAX] {
        let o = process_probabilistic_payment(&c, &ctx_at(0), &b, seed).expect("permitted");
        assert_eq!(o.payee_transfer, 0);
        assert_eq!(o.record, c);
        assert_eq!(o.balances, b);
    }
}

#[test]
fn settle_refuses_illiquid_escrow() {
    let (c, _) = open_channel(1_000_000, 0);
    let c = process_add_micropayment_intent(&c, &ctx_at(0), 500_000).unwrap();
    // An executing draw against an escrow that cannot cover reserve + payout.
    let poor = Balances { payer_balance: 0, payee_balance: 0, escrow_balance: 500_009 };
    let r = process_probabilistic_payment(&c, &ctx_at(0), &poor, 50);
    assert_eq!(r.unwrap_err(), ChannelError::InsufficientFunds);
    // A skipping draw does not need liquidity.
    let o = process_probabilistic_payment(&c, &ctx_at(0), &poor, 150).expect("permitted");
    assert_eq!(o.payee_transfer, 0);
}

#[test]
fn settle_refuses_expired_channel() {
    let (c, b) = open_channel(1_000_000, 5);
    let c = process_add_micropayment_intent(&c, &ctx_at(5), 100).unwrap();
    let r = process_probabilistic_payment(&c, &ctx_at(6), &b, 0);
    assert_eq!(r.unwrap_err(), ChannelError::ExpiredChannel);
}

#[test]
fn settle_refuses_wrong_payee() {
    let (c, b) = open_channel(1_000_000, 0);
    let mut ctx = ctx_at(0);
    ctx.payee = stranger();
    let r = process_probabilistic_payment(&c, &ctx, &b, 0);
    assert_eq!(r.unwrap_err(), ChannelError::IdentityMismatch);
}

#[test]
fn settle_same_inputs_same_decision() {
    let (c, b) = open_channel(1_000_000, 0);
    let c = process_add_micropayment_intent(&c, &ctx_at(0), 500_000).unwrap();
    let first = process_probabilistic_payment(&c, &ctx_at(7), &b, 42).expect("permitted");
    let second = process_probabilistic_payment(&c, &ctx_at(7), &b, 42).expect("permitted");
    assert_eq!(first, second);
}

#[test]
fn close_settles_pending_intent_and_conserves_funds() {
    let (c, _) = open_channel(700, 0);
    let c = process_add_micropayment_intent(&c, &ctx_at(0), 300).unwrap();
    let b = Balances { payer_balance: 50, payee_balance: 20, escrow_balance: 1_000 };
    let o = process_close_channel(&c, &ctx_at(0), &b).expect("close is always permitted");
    // The pending intent reaches the payee, the rest returns to the payer.
    assert_eq!(o.payee_transfer, 300);
    assert_eq!(o.payer_refund, 700);
    assert_eq!(o.balances.escrow_balance, 0);
    assert_eq!(o.balances.payee_balance, 320);
    assert_eq!(o.balances.payer_balance, 750);
    // The escrow's funds are fully conserved.
    assert_eq!(o.payee_transfer + o.payer_refund, b.escrow_balance);
}

#[test]
fn close_after_settlement_conserves_funds() {
    let (c, b) = open_channel(1_000_000, 0);
    let c = process_add_micropayment_intent(&c, &ctx_at(0), 400_000).unwrap();
    // Executing draw: (0 + 30 + 400_000) % 10_000 = 30 < 100.
    let o = process_probabilistic_payment(&c, &ctx_at(0), &b, 30).expect("permitted");
    let (c, b) = (o.record, o.balances);
    assert_eq!(c.paid_amount, 400_000);
    assert_eq!(b.escrow_balance, 600_010);
    // More intent, left pending at close.
    let c = process_add_micropayment_intent(&c, &ctx_at(0), 100_000).unwrap();
    let o = process_close_channel(&c, &ctx_at(0), &b).expect("close is always permitted");
    // The pending intent reaches the payee; the earlier payout is not
    // deducted again: the rest of the escrow returns to the payer.
    assert_eq!(o.payee_transfer, 100_000);
    assert_eq!(o.payer_refund, 500_010);
    assert_eq!(o.payee_transfer + o.payer_refund, b.escrow_balance);
    assert_eq!(o.balances.escrow_balance, 0);
    assert_eq!(o.balances.payee_balance, 500_000);
    assert_eq!(o.balances.payer_balance, 999_990 + 500_010);
}

#[test]
fn close_succeeds_after_expiry() {
    let (c, b) = open_channel(1_000, 5);
    let o = process_close_channel(&c, &ctx_at(99), &b).expect("close enforces no expiry");
    assert_eq!(o.balances.escrow_balance, 0);
}

#[test]
fn close_refuses_stranger_and_missing_record() {
    let (c, b) = open_channel(1_000, 0);
    let mut ctx = ctx_at(0);
    ctx.caller = stranger();
    assert_eq!(
        process_close_channel(&c, &ctx, &b).unwrap_err(),
        ChannelError::IdentityMismatch
    );
    let mut ctx = ctx_at(0);
    ctx.caller_signed = false;
    assert_eq!(
        process_close_channel(&c, &ctx, &b).unwrap_err(),
        ChannelError::Unauthenticated
    );
    let mut dead = c;
    dead.is_initialized = false;
    assert_eq!(
        process_close_channel(&dead, &ctx_at(0), &b).unwrap_err(),
        ChannelError::RecordNotInitialized
    );
}

#[test]
fn conservation_holds_after_every_operation() {
    let (mut c, mut b) = open_channel(1_000_000, 0);
    assert!(c.paid_amount + c.accumulated_intent <= c.total_amount);
    for (amount, seed) in [(100_000u64, 150u64), (400_000, 50), (250_000, 9_950)] {
        c = process_add_micropayment_intent(&c, &ctx_at(0), amount).unwrap();
        assert!(c.paid_amount + c.accumulated_intent <= c.total_amount);
        let o = process_probabilistic_payment(&c, &ctx_at(0), &b, seed).unwrap();
        c = o.record;
        b = o.balances;
        assert!(c.paid_amount + c.accumulated_intent <= c.total_amount);
    }
}

#[test]
fn full_scenario_through_the_dispatcher() {
    let ctx = ctx_at(0);
    let mut slot: Option<PaymentChannel> = None;
    let mut b = start_balances();

    // Lock 1,000,000 with no expiry.
    let init = encode_instruction(&PowerPayInstruction::InitChannel {
        amount: 1_000_000,
        expiry_timestamp: 0,
    });
    let o = process_instruction(&init, &ctx, &slot, &b).expect("init succeeds");
    slot = o.slot;
    b = o.balances;
    assert_eq!(slot.unwrap().total_amount, 1_000_000);
    assert_eq!(b.escrow_balance, 1_000_010);

    // Accumulate 500,000 of intent.
    let add = encode_instruction(&PowerPayInstruction::AddMicroPaymentIntent { amount: 500_000 });
    let o = process_instruction(&add, &ctx, &slot, &b).expect("within total");
    slot = o.slot;
    b = o.balances;
    assert_eq!(slot.unwrap().accumulated_intent, 500_000);

    // Settle with a seed drawing 50 against threshold 100: executes.
    let settle =
        encode_instruction(&PowerPayInstruction::ProcessProbabilisticPayment { random_seed: 50 });
    let o = process_instruction(&settle, &ctx, &slot, &b).expect("permitted");
    slot = o.slot;
    b = o.balances;
    let c = slot.unwrap();
    assert_eq!(c.paid_amount, 500_000);
    assert_eq!(c.accumulated_intent, 0);
    assert_eq!(b.payee_balance, 500_000);
    assert_eq!(b.escrow_balance, 500_010);

    // Close: nothing is pending, so the whole remaining escrow — the locked
    // remainder plus the reserve — returns to the payer; the record is gone
    // and the escrow is empty.
    let close = encode_instruction(&PowerPayInstruction::CloseChannel);
    let o = process_instruction(&close, &ctx, &slot, &b).expect("close is always permitted");
    assert!(o.slot.is_none());
    assert_eq!(o.balances.escrow_balance, 0);
    assert_eq!(o.balances.payer_balance, 1_500_000);
    assert_eq!(o.balances.payee_balance, 500_000);
    // Over the whole run no value was created or destroyed.
    assert_eq!(
        o.balances.payer_balance + o.balances.payee_balance + o.balances.escrow_balance,
        2_000_000
    );

    // The closed slot refuses every further operation.
    let r = process_instruction(&add, &ctx, &o.slot, &o.balances);
    assert_eq!(r.unwrap_err(), ChannelError::RecordNotInitialized);
}

#[test]
fn dispatcher_rejects_malformed_requests() {
    let ctx = ctx_at(0);
    let b = start_balances();
    assert_eq!(
        process_instruction(&[], &ctx, &None, &b).unwrap_err(),
        ChannelError::MalformedRequest
    );
    assert_eq!(
        process_instruction(&[9u8, 0, 0], &ctx, &None, &b).unwrap_err(),
        ChannelError::MalformedRequest
    );
}

#[test]
fn dispatcher_requires_a_record_for_non_init_requests() {
    let ctx = ctx_at(0);
    let b = start_balances();
    for i in [
        PowerPayInstruction::AddMicroPaymentIntent { amount: 1 },
        PowerPayInstruction::ProcessProbabilisticPayment { random_seed: 1 },
        PowerPayInstruction::CloseChannel,
    ] {
        let data = encode_instruction(&i);
        let r = process_instruction(&data, &ctx, &None, &b);
        assert_eq!(r.unwrap_err(), ChannelError::RecordNotInitialized);
    }
}

#[test]
fn dispatcher_refuses_reinitialization() {
    let ctx = ctx_at(0);
    let (c, b) = open_channel(1_000, 0);
    let init = encode_instruction(&PowerPayInstruction::InitChannel {
        amount: 5,
        expiry_timestamp: 0,
    });
    let r = process_instruction(&init, &ctx, &Some(c), &b);
    assert_eq!(r.unwrap_err(), ChannelError::AllocationFailed);
}
