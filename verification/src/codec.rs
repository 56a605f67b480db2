//! The wire codec: the request encoding and the fixed 99-byte on-disk
//! layout of the channel record, both little-endian.
//!
//! A request is a one-byte variant tag followed by the variant's
//! fixed-width payload. The record layout is
//! `initialized:1 | payer:32 | payee:32 | total:8 | paid:8 | intent:8 |
//! threshold:2 | expiry:8`. Decoding accepts exactly the bytes encoding
//! produces: trailing bytes, a bad tag or a bad boolean byte are malformed.

use vstd::prelude::*;
use vstd::bytes::*;
use vstd::seq_lib::*;
use vstd::slice::{slice_index_get, slice_subrange};
use crate::channel::{ChannelError, Identity, PaymentChannel};

verus! {

/// The size of the persisted channel record in bytes.
pub const PAYMENT_CHANNEL_SIZE: usize = 1 + 32 + 32 + 8 + 8 + 8 + 2 + 8;

/// One decoded request against a channel.
#[derive(Clone, Copy, PartialEq, Eq, Structural, Debug)]
pub enum PowerPayInstruction {
    /// Open a new channel locking `amount`, expiring at `expiry_timestamp`
    /// (zero: never).
    InitChannel { amount: u64, expiry_timestamp: u64 },
    /// Accumulate a micropayment intent of `amount` without executing it.
    AddMicroPaymentIntent { amount: u64 },
    /// Attempt a probabilistic settlement with the caller-supplied seed.
    ProcessProbabilisticPayment { random_seed: u64 },
    /// Close the channel and settle the final balance.
    CloseChannel,
}

// ------------------------------------------------------------------
// Requests
// ------------------------------------------------------------------

/// The bytes a request encodes to: a one-byte tag, then the payload words
/// in little-endian order.
pub open spec fn spec_encode_instruction(i: PowerPayInstruction) -> Seq<u8> {
    match i {
        PowerPayInstruction::InitChannel { amount, expiry_timestamp } => seq![0u8]
            + spec_u64_to_le_bytes(amount) + spec_u64_to_le_bytes(expiry_timestamp),
        PowerPayInstruction::AddMicroPaymentIntent { amount } => seq![1u8]
            + spec_u64_to_le_bytes(amount),
        PowerPayInstruction::ProcessProbabilisticPayment { random_seed } => seq![2u8]
            + spec_u64_to_le_bytes(random_seed),
        PowerPayInstruction::CloseChannel => seq![3u8],
    }
}

/// What a byte string decodes to, if anything: the tag picks the variant
/// and the length must match that variant's payload exactly.
pub open spec fn spec_decode_instruction(s: Seq<u8>) -> Option<PowerPayInstruction> {
    if s.len() == 0 {
        None
    } else if s[0] == 0u8 {
        if s.len() == 17 {
            Some(PowerPayInstruction::InitChannel {
                amount: spec_u64_from_le_bytes(s.subrange(1, 9)),
                expiry_timestamp: spec_u64_from_le_bytes(s.subrange(9, 17)),
            })
        } else {
            None
        }
    } else if s[0] == 1u8 {
        if s.len() == 9 {
            Some(PowerPayInstruction::AddMicroPaymentIntent {
                amount: spec_u64_from_le_bytes(s.subrange(1, 9)),
            })
        } else {
            None
        }
    } else if s[0] == 2u8 {
        if s.len() == 9 {
            Some(PowerPayInstruction::ProcessProbabilisticPayment {
                random_seed: spec_u64_from_le_bytes(s.subrange(1, 9)),
            })
        } else {
            None
        }
    } else if s[0] == 3u8 {
        if s.len() == 1 {
            Some(PowerPayInstruction::CloseChannel)
        } else {
            None
        }
    } else {
        None
    }
}

/// Encode a request for the wire.
pub fn encode_instruction(i: &PowerPayInstruction) -> (r: Vec<u8>)
    ensures
        r@ == spec_encode_instruction(*i),
{
    proof {
        lemma_auto_spec_u64_to_from_le_bytes();
    }
    let mut v: Vec<u8> = Vec::new();
    match i {
        PowerPayInstruction::InitChannel { amount, expiry_timestamp } => {
            v.push(0u8);
            let mut a = u64_to_le_bytes(*amount);
            v.append(&mut a);
            let mut e = u64_to_le_bytes(*expiry_timestamp);
            v.append(&mut e);
            proof {
                assert_seqs_equal!(v@ == spec_encode_instruction(*i));
            }
        },
        PowerPayInstruction::AddMicroPaymentIntent { amount } => {
            v.push(1u8);
            let mut a = u64_to_le_bytes(*amount);
            v.append(&mut a);
            proof {
                assert_seqs_equal!(v@ == spec_encode_instruction(*i));
            }
        },
        PowerPayInstruction::ProcessProbabilisticPayment { random_seed } => {
            v.push(2u8);
            let mut a = u64_to_le_bytes(*random_seed);
            v.append(&mut a);
            proof {
                assert_seqs_equal!(v@ == spec_encode_instruction(*i));
            }
        },
        PowerPayInstruction::CloseChannel => {
            v.push(3u8);
            proof {
                assert_seqs_equal!(v@ == spec_encode_instruction(*i));
            }
        },
    }
    v
}

/// Decode a request from the wire. Exactly the byte strings
/// [`spec_decode_instruction`] accepts come back as a request; everything
/// else is a malformed request.
pub fn decode_instruction(s: &[u8]) -> (r: Result<PowerPayInstruction, ChannelError>)
    ensures
        match spec_decode_instruction(s@) {
            Some(i) => r == Ok::<PowerPayInstruction, ChannelError>(i),
            None => r == Err::<PowerPayInstruction, ChannelError>(ChannelError::MalformedRequest),
        },
{
    if s.len() == 0 {
        return Err(ChannelError::MalformedRequest);
    }
    let tag = *slice_index_get(s, 0);
    if tag == 0u8 {
        if s.len() != 17 {
            return Err(ChannelError::MalformedRequest);
        }
        let amount = u64_from_le_bytes(slice_subrange(s, 1, 9));
        let expiry_timestamp = u64_from_le_bytes(slice_subrange(s, 9, 17));
        Ok(PowerPayInstruction::InitChannel { amount, expiry_timestamp })
    } else if tag == 1u8 {
        if s.len() != 9 {
            return Err(ChannelError::MalformedRequest);
        }
        let amount = u64_from_le_bytes(slice_subrange(s, 1, 9));
        Ok(PowerPayInstruction::AddMicroPaymentIntent { amount })
    } else if tag == 2u8 {
        if s.len() != 9 {
            return Err(ChannelError::MalformedRequest);
        }
        let random_seed = u64_from_le_bytes(slice_subrange(s, 1, 9));
        Ok(PowerPayInstruction::ProcessProbabilisticPayment { random_seed })
    } else if tag == 3u8 {
        if s.len() != 1 {
            return Err(ChannelError::MalformedRequest);
        }
        Ok(PowerPayInstruction::CloseChannel)
    } else {
        Err(ChannelError::MalformedRequest)
    }
}

/// Decoding inverts encoding: every request survives the wire unchanged.
pub proof fn lemma_instruction_round_trip(i: PowerPayInstruction)
    ensures
        spec_decode_instruction(spec_encode_instruction(i)) == Some(i),
{
    lemma_auto_spec_u64_to_from_le_bytes();
    let e = spec_encode_instruction(i);
    match i {
        PowerPayInstruction::InitChannel { amount, expiry_timestamp } => {
            assert_seqs_equal!(e.subrange(1, 9) == spec_u64_to_le_bytes(amount));
            assert_seqs_equal!(e.subrange(9, 17) == spec_u64_to_le_bytes(expiry_timestamp));
        },
        PowerPayInstruction::AddMicroPaymentIntent { amount } => {
            assert_seqs_equal!(e.subrange(1, 9) == spec_u64_to_le_bytes(amount));
        },
        PowerPayInstruction::ProcessProbabilisticPayment { random_seed } => {
            assert_seqs_equal!(e.subrange(1, 9) == spec_u64_to_le_bytes(random_seed));
        },
        PowerPayInstruction::CloseChannel => {},
    }
}

/// Encoding also inverts decoding: every byte string a request decodes
/// from is that request's own encoding, so the decoder accepts exactly the
/// encoder's image.
pub proof fn lemma_instruction_bytes_round_trip(s: Seq<u8>, i: PowerPayInstruction)
    requires
        spec_decode_instruction(s) == Some(i),
    ensures
        spec_encode_instruction(i) == s,
{
    lemma_auto_spec_u64_to_from_le_bytes();
    let e = spec_encode_instruction(i);
    match i {
        PowerPayInstruction::InitChannel { .. } => {
            assert_seqs_equal!(e == s);
        },
        PowerPayInstruction::AddMicroPaymentIntent { .. } => {
            assert_seqs_equal!(e == s);
        },
        PowerPayInstruction::ProcessProbabilisticPayment { .. } => {
            assert_seqs_equal!(e == s);
        },
        PowerPayInstruction::CloseChannel => {
            assert_seqs_equal!(e == s);
        },
    }
}

// ------------------------------------------------------------------
// Identities
// ------------------------------------------------------------------

/// The 32 bytes of an identity: its four words, each little-endian.
pub open spec fn spec_identity_bytes(id: Identity) -> Seq<u8> {
    spec_u64_to_le_bytes(id.w0) + spec_u64_to_le_bytes(id.w1) + spec_u64_to_le_bytes(id.w2)
        + spec_u64_to_le_bytes(id.w3)
}

/// The identity 32 bytes decode to.
pub open spec fn spec_identity_of_bytes(s: Seq<u8>) -> Identity
    recommends
        s.len() == 32,
{
    (Identity {
        w0: spec_u64_from_le_bytes(s.subrange(0, 8)),
        w1: spec_u64_from_le_bytes(s.subrange(8, 16)),
        w2: spec_u64_from_le_bytes(s.subrange(16, 24)),
        w3: spec_u64_from_le_bytes(s.subrange(24, 32)),
    })
}

/// Decoding inverts encoding for identities.
pub proof fn lemma_identity_round_trip(id: Identity)
    ensures
        spec_identity_of_bytes(spec_identity_bytes(id)) == id,
{
    lemma_auto_spec_u64_to_from_le_bytes();
    let e = spec_identity_bytes(id);
    assert_seqs_equal!(e.subrange(0, 8) == spec_u64_to_le_bytes(id.w0));
    assert_seqs_equal!(e.subrange(8, 16) == spec_u64_to_le_bytes(id.w1));
    assert_seqs_equal!(e.subrange(16, 24) == spec_u64_to_le_bytes(id.w2));
    assert_seqs_equal!(e.subrange(24, 32) == spec_u64_to_le_bytes(id.w3));
}

/// Encoding also inverts decoding for identities: any 32 bytes are the
/// encoding of the identity they decode to.
pub proof fn lemma_identity_bytes_round_trip(s: Seq<u8>)
    requires
        s.len() == 32,
    ensures
        spec_identity_bytes(spec_identity_of_bytes(s)) == s,
{
    lemma_auto_spec_u64_to_from_le_bytes();
    assert_seqs_equal!(spec_identity_bytes(spec_identity_of_bytes(s)) == s);
}

/// Write an identity's 32 bytes.
pub fn identity_to_bytes(id: &Identity) -> (r: Vec<u8>)
    ensures
        r@ == spec_identity_bytes(*id),
        r@.len() == 32,
{
    proof {
        lemma_auto_spec_u64_to_from_le_bytes();
    }
    let mut v = u64_to_le_bytes(id.w0);
    let mut p = u64_to_le_bytes(id.w1);
    v.append(&mut p);
    let mut p = u64_to_le_bytes(id.w2);
    v.append(&mut p);
    let mut p = u64_to_le_bytes(id.w3);
    v.append(&mut p);
    proof {
        assert_seqs_equal!(v@ == spec_identity_bytes(*id));
    }
    v
}

/// Read an identity from 32 bytes.
pub fn identity_from_bytes(s: &[u8]) -> (r: Identity)
    requires
        s@.len() == 32,
    ensures
        r == spec_identity_of_bytes(s@),
{
    Identity {
        w0: u64_from_le_bytes(slice_subrange(s, 0, 8)),
        w1: u64_from_le_bytes(slice_subrange(s, 8, 16)),
        w2: u64_from_le_bytes(slice_subrange(s, 16, 24)),
        w3: u64_from_le_bytes(slice_subrange(s, 24, 32)),
    }
}

// ------------------------------------------------------------------
// The channel record
// ------------------------------------------------------------------

/// The byte a boolean is stored as.
pub open spec fn spec_bool_byte(b: bool) -> u8 {
    if b {
        1u8
    } else {
        0u8
    }
}

/// The 99 bytes a channel record is persisted as.
pub open spec fn spec_encode_channel(c: PaymentChannel) -> Seq<u8> {
    seq![spec_bool_byte(c.is_initialized)] + spec_identity_bytes(c.payer)
        + spec_identity_bytes(c.payee) + spec_u64_to_le_bytes(c.total_amount)
        + spec_u64_to_le_bytes(c.paid_amount) + spec_u64_to_le_bytes(c.accumulated_intent)
        + spec_u16_to_le_bytes(c.probability_threshold) + spec_u64_to_le_bytes(c.expiry_timestamp)
}

/// What stored bytes decode to, if anything: the length must be exactly
/// the record size and the boolean byte must be 0 or 1.
pub open spec fn spec_decode_channel(s: Seq<u8>) -> Option<PaymentChannel> {
    if s.len() == PAYMENT_CHANNEL_SIZE && (s[0] == 0u8 || s[0] == 1u8) {
        Some(PaymentChannel {
            is_initialized: s[0] == 1u8,
            payer: spec_identity_of_bytes(s.subrange(1, 33)),
            payee: spec_identity_of_bytes(s.subrange(33, 65)),
            total_amount: spec_u64_from_le_bytes(s.subrange(65, 73)),
            paid_amount: spec_u64_from_le_bytes(s.subrange(73, 81)),
            accumulated_intent: spec_u64_from_le_bytes(s.subrange(81, 89)),
            probability_threshold: spec_u16_from_le_bytes(s.subrange(89, 91)),
            expiry_timestamp: spec_u64_from_le_bytes(s.subrange(91, 99)),
        })
    } else {
        None
    }
}

/// Write a channel record into its 99-byte persisted form.
pub fn encode_channel(c: &PaymentChannel) -> (r: Vec<u8>)
    ensures
        r@ == spec_encode_channel(*c),
        r@.len() == PAYMENT_CHANNEL_SIZE,
{
    proof {
        lemma_auto_spec_u64_to_from_le_bytes();
        lemma_auto_spec_u16_to_from_le_bytes();
    }
    let mut v: Vec<u8> = Vec::new();
    v.push(if c.is_initialized { 1u8 } else { 0u8 });
    let mut p = identity_to_bytes(&c.payer);
    v.append(&mut p);
    let mut p = identity_to_bytes(&c.payee);
    v.append(&mut p);
    let mut p = u64_to_le_bytes(c.total_amount);
    v.append(&mut p);
    let mut p = u64_to_le_bytes(c.paid_amount);
    v.append(&mut p);
    let mut p = u64_to_le_bytes(c.accumulated_intent);
    v.append(&mut p);
    let mut p = u16_to_le_bytes(c.probability_threshold);
    v.append(&mut p);
    let mut p = u64_to_le_bytes(c.expiry_timestamp);
    v.append(&mut p);
    proof {
        assert_seqs_equal!(v@ == spec_encode_channel(*c));
    }
    v
}

/// Read a channel record back from its persisted form. Exactly the byte
/// strings [`spec_decode_channel`] accepts come back as a record;
/// everything else is a malformed request.
pub fn decode_channel(s: &[u8]) -> (r: Result<PaymentChannel, ChannelError>)
    ensures
        match spec_decode_channel(s@) {
            Some(c) => r == Ok::<PaymentChannel, ChannelError>(c),
            None => r == Err::<PaymentChannel, ChannelError>(ChannelError::MalformedRequest),
        },
{
    if s.len() != PAYMENT_CHANNEL_SIZE {
        return Err(ChannelError::MalformedRequest);
    }
    let flag = *slice_index_get(s, 0);
    if flag != 0u8 && flag != 1u8 {
        return Err(ChannelError::MalformedRequest);
    }
    Ok(PaymentChannel {
        is_initialized: flag == 1u8,
        payer: identity_from_bytes(slice_subrange(s, 1, 33)),
        payee: identity_from_bytes(slice_subrange(s, 33, 65)),
        total_amount: u64_from_le_bytes(slice_subrange(s, 65, 73)),
        paid_amount: u64_from_le_bytes(slice_subrange(s, 73, 81)),
        accumulated_intent: u64_from_le_bytes(slice_subrange(s, 81, 89)),
        probability_threshold: u16_from_le_bytes(slice_subrange(s, 89, 91)),
        expiry_timestamp: u64_from_le_bytes(slice_subrange(s, 91, 99)),
    })
}

/// Storing and loading a record gives it back unchanged.
pub proof fn lemma_channel_round_trip(c: PaymentChannel)
    ensures
        spec_decode_channel(spec_encode_channel(c)) == Some(c),
{
    lemma_auto_spec_u64_to_from_le_bytes();
    lemma_auto_spec_u16_to_from_le_bytes();
    lemma_identity_round_trip(c.payer);
    lemma_identity_round_trip(c.payee);
    let e = spec_encode_channel(c);
    assert(e.len() == PAYMENT_CHANNEL_SIZE);
    assert(e[0] == spec_bool_byte(c.is_initialized));
    assert_seqs_equal!(e.subrange(1, 33) == spec_identity_bytes(c.payer));
    assert_seqs_equal!(e.subrange(33, 65) == spec_identity_bytes(c.payee));
    assert_seqs_equal!(e.subrange(65, 73) == spec_u64_to_le_bytes(c.total_amount));
    assert_seqs_equal!(e.subrange(73, 81) == spec_u64_to_le_bytes(c.paid_amount));
    assert_seqs_equal!(e.subrange(81, 89) == spec_u64_to_le_bytes(c.accumulated_intent));
    assert_seqs_equal!(e.subrange(89, 91) == spec_u16_to_le_bytes(c.probability_threshold));
    assert_seqs_equal!(e.subrange(91, 99) == spec_u64_to_le_bytes(c.expiry_timestamp));
}

/// Storing also inverts loading: every stored form a record decodes from is
/// that record's own encoding, so the decoder accepts exactly the encoder's
/// image.
pub proof fn lemma_channel_bytes_round_trip(s: Seq<u8>, c: PaymentChannel)
    requires
        spec_decode_channel(s) == Some(c),
    ensures
        spec_encode_channel(c) == s,
{
    lemma_auto_spec_u64_to_from_le_bytes();
    lemma_auto_spec_u16_to_from_le_bytes();
    lemma_identity_bytes_round_trip(s.subrange(1, 33));
    lemma_identity_bytes_round_trip(s.subrange(33, 65));
    assert_seqs_equal!(spec_encode_channel(c) == s);
}

} // verus!
