//! The byte form of an event record: the kind's tag, the amount, the user's
//! address and the timestamp, 49 bytes in all, integers in little-endian
//! order.

use vstd::prelude::*;
use crate::model::LendingEvent;

verus! {

/// The `width` low bytes of `value`, lowest first.
pub open spec fn le_bytes(value: nat, width: nat) -> Seq<u8>
    decreases width,
{
    if width == 0 {
        Seq::empty()
    } else {
        seq![(value % 256) as u8] + le_bytes(value / 256, (width - 1) as nat)
    }
}

/// The unsigned 64-bit number with the same bits as `value` in two's
/// complement.
pub open spec fn unsigned_spec(value: i64) -> nat {
    if value >= 0 {
        value as nat
    } else {
        (value + 0x1_0000_0000_0000_0000) as nat
    }
}

/// The serialized record with this tag, amount, user and timestamp.
pub open spec fn record_spec(tag: u8, amount: u64, user: [u8; 32], timestamp: i64) -> Seq<u8> {
    seq![tag] + le_bytes(amount as nat, 8) + user@ + le_bytes(unsigned_spec(timestamp), 8)
}

/// The serialized event: the record with the tag of its kind.
pub open spec fn data_spec(event: LendingEvent) -> Seq<u8> {
    record_spec(event.kind.tag_spec(), event.amount, event.user, event.timestamp)
}

/// A serialized record has 49 bytes.
pub proof fn lemma_record_length(tag: u8, amount: u64, user: [u8; 32], timestamp: i64)
    ensures
        record_spec(tag, amount, user, timestamp).len() == 49,
{
    lemma_le_bytes_length(amount as nat, 8);
    lemma_le_bytes_length(unsigned_spec(timestamp), 8);
}

/// `le_bytes` gives as many bytes as asked for.
pub proof fn lemma_le_bytes_length(value: nat, width: nat)
    ensures
        le_bytes(value, width).len() == width,
    decreases width,
{
    if width > 0 {
        lemma_le_bytes_length(value / 256, (width - 1) as nat);
    }
}

fn to_unsigned(value: i64) -> (r: u64)
    ensures
        r == unsigned_spec(value),
{
    if value >= 0 {
        value as u64
    } else {
        ((value - i64::MIN) as u64) + 0x8000_0000_0000_0000u64
    }
}

fn push_le_bytes(out: &mut Vec<u8>, value: u64)
    ensures
        final(out)@ == old(out)@ + le_bytes(value as nat, 8),
{
    let ghost start = out@;
    let mut rest: u64 = value;
    let mut i: usize = 0;
    while i < 8
        invariant
            i <= 8,
            out@ + le_bytes(rest as nat, (8 - i) as nat) == start + le_bytes(value as nat, 8),
        decreases 8 - i,
    {
        let ghost before = out@;
        let low: u8 = (rest % 256) as u8;
        out.push(low);
        proof {
            let tail = le_bytes((rest / 256) as nat, (8 - i - 1) as nat);
            assert(le_bytes(rest as nat, (8 - i) as nat) == seq![low] + tail);
            assert(before.push(low) + tail =~= before + (seq![low] + tail));
        }
        rest = rest / 256;
        i += 1;
    }
    proof {
        assert(out@ + Seq::<u8>::empty() =~= out@);
    }
}

/// Serializes a record whose kind is given by its tag, whatever the tag.
pub fn record_bytes(tag: u8, amount: u64, user: &[u8; 32], timestamp: i64) -> (bytes: Vec<u8>)
    ensures
        bytes@ == record_spec(tag, amount, *user, timestamp),
        bytes@.len() == 49,
{
    proof {
        lemma_record_length(tag, amount, *user, timestamp);
    }
    let mut out: Vec<u8> = Vec::with_capacity(49);
    out.push(tag);
    push_le_bytes(&mut out, amount);
    let ghost head = out@;
    let mut i: usize = 0;
    while i < 32
        invariant
            i <= 32,
            out@ == head + user@.subrange(0, i as int),
        decreases 32 - i,
    {
        out.push(user[i]);
        proof {
            assert(user@.subrange(0, i as int).push(user@[i as int]) =~= user@.subrange(0, i + 1));
            assert(out@ =~= head + user@.subrange(0, i + 1));
        }
        i += 1;
    }
    proof {
        assert(user@.subrange(0, 32) =~= user@);
        assert(head =~= seq![tag] + le_bytes(amount as nat, 8));
    }
    push_le_bytes(&mut out, to_unsigned(timestamp));
    out
}

impl LendingEvent {
    /// Serializes the event.
    pub fn data(&self) -> (bytes: Vec<u8>)
        ensures
            bytes@ == data_spec(*self),
            bytes@.len() == 49,
    {
        record_bytes(self.kind.tag(), self.amount, &self.user, self.timestamp)
    }
}

} // verus!
