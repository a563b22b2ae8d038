//! Slot numbering within the hyperframe.
//!
//! A hyperframe is 60 multiframes of 18 frames of 4 timeslots, 4320 slots
//! in all.  A slot number is a triple of one-based components, in bijection
//! with its zero-based index from the beginning of the hyperframe.

use vstd::prelude::*;
use crate::eucl::{div_euclid_i32, rem_euclid_i32, rem_euclid_i64};

verus! {

/// Slots in one hyperframe: 4 timeslots x 18 frames x 60 multiframes.
pub const SLOTS_PER_HYPERFRAME: i32 = 4320;

/// Number of a timeslot
#[derive(Copy, Clone, Eq, PartialEq, Structural, Debug)]
pub struct SlotNumber {
    /// Timeslot number (TN) (1-4)
    pub timeslot: u8,
    /// TDMA frame number (FN) (1-18)
    pub frame: u8,
    /// TDMA multiframe number (MN) (1-60)
    pub multiframe: u8,
}

/// All three components are in their one-based ranges.
pub open spec fn slot_valid(s: SlotNumber) -> bool {
    &&& 1 <= s.timeslot <= 4
    &&& 1 <= s.frame <= 18
    &&& 1 <= s.multiframe <= 60
}

/// Zero-based index of a slot from the beginning of the hyperframe.
pub open spec fn slot_index(s: SlotNumber) -> int {
    (s.timeslot - 1) + (s.frame - 1) * 4 + (s.multiframe - 1) * 72
}

/// The slot whose index is `i`, reduced modulo the hyperframe length.
/// `/` and `%` are Euclidean here, so negative indices wrap backwards
/// from the end of the hyperframe.
pub open spec fn slot_of_index(i: int) -> SlotNumber {
    SlotNumber {
        timeslot: (i % 4 + 1) as u8,
        frame: ((i / 4) % 18 + 1) as u8,
        multiframe: ((i / 72) % 60 + 1) as u8,
    }
}

/// The slot `slots` slots after `s`.
pub open spec fn slot_plus(s: SlotNumber, slots: int) -> SlotNumber {
    slot_of_index(slot_index(s) + slots)
}

/// The slot `slots` slots before `s`.
pub open spec fn slot_minus(s: SlotNumber, slots: int) -> SlotNumber {
    slot_of_index(slot_index(s) - slots)
}

impl SlotNumber {
    pub fn new(timeslot: u8, frame: u8, multiframe: u8) -> (s: Self)
        requires
            1 <= timeslot <= 4,
            1 <= frame <= 18,
            1 <= multiframe <= 60,
        ensures
            s == (SlotNumber { timeslot, frame, multiframe }),
            slot_valid(s),
    {
        Self { timeslot, frame, multiframe }
    }

    /// Convert to an integer representing the number of slots
    /// from beginning of a hyperframe.
    pub fn to_int(self) -> (i: i32)
        requires
            slot_valid(self),
        ensures
            i == slot_index(self),
            0 <= i < SLOTS_PER_HYPERFRAME,
    {
        let ts: i32 = self.timeslot as i32;
        let fr: i32 = self.frame as i32;
        let mf: i32 = self.multiframe as i32;
        (ts - 1) + (fr - 1) * 4 + (mf - 1) * 72
    }

    pub fn from_int(i: i32) -> (s: Self)
        ensures
            s == slot_of_index(i as int),
            slot_valid(s),
    {
        let timeslot = (rem_euclid_i32(i, 4) + 1) as u8;
        let frame = (rem_euclid_i32(div_euclid_i32(i, 4), 18) + 1) as u8;
        let multiframe = (rem_euclid_i32(div_euclid_i32(i, 4 * 18), 60) + 1) as u8;
        Self { timeslot, frame, multiframe }
    }

    pub fn plus(self, slots: i32) -> (s: Self)
        requires
            slot_valid(self),
        ensures
            s == slot_plus(self, slots as int),
            slot_valid(s),
    {
        let idx: i64 = self.to_int() as i64 + slots as i64;
        let wrapped: i32 = rem_euclid_i64(idx, SLOTS_PER_HYPERFRAME as i64) as i32;
        proof {
            lemma_slot_of_index_mod(idx as int);
        }
        Self::from_int(wrapped)
    }

    pub fn minus(self, slots: i32) -> (s: Self)
        requires
            slot_valid(self),
        ensures
            s == slot_minus(self, slots as int),
            slot_valid(s),
    {
        let idx: i64 = self.to_int() as i64 - slots as i64;
        let wrapped: i32 = rem_euclid_i64(idx, SLOTS_PER_HYPERFRAME as i64) as i32;
        proof {
            lemma_slot_of_index_mod(idx as int);
        }
        Self::from_int(wrapped)
    }
}

/// A slot read back from its own index is itself: the triple-to-index
/// map is injective on valid slots.
pub proof fn lemma_slot_round_trip(s: SlotNumber)
    requires
        slot_valid(s),
    ensures
        slot_of_index(slot_index(s)) == s,
{
    let i = slot_index(s);
    let ts = s.timeslot - 1;
    let fr = s.frame - 1;
    let mf = s.multiframe - 1;
    assert(i == ts + fr * 4 + mf * 72);
    vstd::arithmetic::div_mod::lemma_fundamental_div_mod_converse(i, 4, fr + mf * 18, ts as int);
    assert(i % 4 == ts);
    assert(i / 4 == fr + mf * 18);
    vstd::arithmetic::div_mod::lemma_fundamental_div_mod_converse(
        fr + mf * 18,
        18,
        mf as int,
        fr as int,
    );
    assert((i / 4) % 18 == fr);
    vstd::arithmetic::div_mod::lemma_fundamental_div_mod_converse(
        i,
        72,
        mf as int,
        ts + fr * 4,
    );
    assert(i / 72 == mf);
    vstd::arithmetic::div_mod::lemma_small_mod(mf as nat, 60);
    assert((i / 72) % 60 == mf);
}

/// The index of the slot at index `i` is `i` reduced modulo the
/// hyperframe length: every integer names exactly one slot.
pub proof fn lemma_index_round_trip(i: int)
    ensures
        slot_index(slot_of_index(i)) == i % 4320,
        slot_valid(slot_of_index(i)),
{
    lemma_slot_of_index_mod(i);
    let a = i % 4320;
    vstd::arithmetic::div_mod::lemma_mod_bound(i, 4320);
    // Decompose a in the mixed radix 4, 18, 60.
    vstd::arithmetic::div_mod::lemma_fundamental_div_mod(a, 4);
    vstd::arithmetic::div_mod::lemma_fundamental_div_mod(a / 4, 18);
    vstd::arithmetic::div_mod::lemma_mod_bound(a, 4);
    vstd::arithmetic::div_mod::lemma_mod_bound(a / 4, 18);
    assert(0 <= a / 4 < 1080) by (nonlinear_arith)
        requires 0 <= a < 4320, a == 4 * (a / 4) + a % 4, 0 <= a % 4 < 4;
    assert(a == (a % 4) + ((a / 4) % 18) * 4 + ((a / 4) / 18) * 72) by (nonlinear_arith)
        requires
            a == 4 * (a / 4) + a % 4,
            a / 4 == 18 * ((a / 4) / 18) + (a / 4) % 18;
    vstd::arithmetic::div_mod::lemma_div_denominator(a, 4, 18);
    assert((a / 4) / 18 == a / 72);
    assert(0 <= a / 72 < 60) by (nonlinear_arith)
        requires 0 <= a < 4320, a == 72 * (a / 72) + a % 72, 0 <= a % 72 < 72;
    vstd::arithmetic::div_mod::lemma_small_mod((a / 72) as nat, 60);
    assert(slot_index(slot_of_index(a)) == a);
}

/// Reducing an index modulo the hyperframe length names the same slot.
pub proof fn lemma_slot_of_index_mod(i: int)
    ensures
        slot_of_index(i % 4320) == slot_of_index(i),
{
    let a = i % 4320;
    let k = i / 4320;
    vstd::arithmetic::div_mod::lemma_fundamental_div_mod(i, 4320);
    assert(i == 4320 * k + a);
    // Component timeslot: 4 divides 4320.
    assert((4320 * k + a) % 4 == a % 4) by {
        vstd::arithmetic::div_mod::lemma_mod_multiples_vanish(1080 * k, a, 4);
        assert(4 * (1080 * k) == 4320 * k) by (nonlinear_arith);
    }
    // Component frame: (i / 4) differs by the multiple 1080 * k, and 18
    // divides 1080.
    assert((4320 * k + a) / 4 == 1080 * k + a / 4) by {
        vstd::arithmetic::div_mod::lemma_hoist_over_denominator(a, 1080 * k, 4nat);
        assert((1080 * k) * 4 == 4320 * k) by (nonlinear_arith);
    }
    assert((1080 * k + a / 4) % 18 == (a / 4) % 18) by {
        vstd::arithmetic::div_mod::lemma_mod_multiples_vanish(60 * k, a / 4, 18);
        assert(18 * (60 * k) == 1080 * k) by (nonlinear_arith);
    }
    // Component multiframe: (i / 72) differs by the multiple 60 * k.
    assert((4320 * k + a) / 72 == 60 * k + a / 72) by {
        vstd::arithmetic::div_mod::lemma_hoist_over_denominator(a, 60 * k, 72nat);
        assert((60 * k) * 72 == 4320 * k) by (nonlinear_arith);
    }
    assert((60 * k + a / 72) % 60 == (a / 72) % 60) by {
        vstd::arithmetic::div_mod::lemma_mod_multiples_vanish(k, a / 72, 60);
    }
}

/// Adding and then subtracting the same offset returns to the same slot.
pub proof fn lemma_plus_minus_round_trip(s: SlotNumber, slots: int)
    requires
        slot_valid(s),
    ensures
        slot_minus(slot_plus(s, slots), slots) == s,
{
    let i = slot_index(s);
    lemma_index_round_trip(i + slots);
    lemma_slot_of_index_mod(i + slots);
    let p = slot_plus(s, slots);
    assert(slot_index(p) == (i + slots) % 4320);
    lemma_slot_of_index_mod((i + slots) % 4320 - slots);
    // (i + slots) % 4320 - slots and i differ by a multiple of 4320.
    let d = (i + slots) % 4320 - slots;
    vstd::arithmetic::div_mod::lemma_fundamental_div_mod(i + slots, 4320);
    let k = (i + slots) / 4320;
    assert(d == i - 4320 * k);
    assert(d % 4320 == i % 4320) by {
        vstd::arithmetic::div_mod::lemma_mod_multiples_vanish(-k, i, 4320);
        assert(4320 * -k + i == i - 4320 * k) by (nonlinear_arith);
    }
    vstd::arithmetic::div_mod::lemma_small_mod(i as nat, 4320);
    lemma_slot_round_trip(s);
    assert(slot_minus(p, slots) == slot_of_index(d));
    assert(slot_of_index(d) == slot_of_index(d % 4320));
    assert(slot_of_index(i % 4320) == slot_of_index(i));
}

} // verus!
