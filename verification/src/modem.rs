//! DQPSK mapping and the modulator timing model.
//!
//! The modulator turns a stream of sample timestamps into an impulse
//! train of constellation phases: one symbol per symbol period, nothing
//! between symbols.  The pulse-shaping filter downstream turns that
//! train into the transmit waveform.

use vstd::prelude::*;
use crate::burst::TxBurst;
use crate::eucl::{div_euclid_i32, div_euclid_i64, rem_euclid_i32, rem_euclid_i64};
use crate::slot::{slot_of_index, slot_valid, SlotNumber};

verus! {

/// Length of a hyperframe in nanoseconds:
/// 255 symbols per slot, 4 x 18 x 60 slots, at 18000 symbols per
/// second, i.e. 1000000 * 255 * 4 * 18 * 60 / 18.
pub const HYPERFRAME_NS: i64 = 61_200_000_000;

/// Symbols in one hyperframe: 255 per slot, 4320 slots.
pub const SYMBOLS_PER_HYPERFRAME: i32 = 255 * 4320;

/// Modem sample duration in nanoseconds.
/// The modem runs at a sample rate of 4 * 18 kHz, rounded to integer
/// nanoseconds.
pub const MODEM_SAMPLE_NS: i64 = 13889;

/// Nanoseconds to whole symbol periods, `ns * 9 / 500000`, with the
/// division truncating toward zero as Rust's `/` does.
pub open spec fn spec_ns_to_symbols(ns: int) -> int {
    if ns >= 0 {
        ns * 9 / 500000
    } else {
        -((-ns) * 9 / 500000)
    }
}

/// Whole symbol periods to nanoseconds, `symbols * 500000 / 9`, with
/// the division truncating toward zero as Rust's `/` does.
pub open spec fn spec_symbols_to_ns(symbols: int) -> int {
    if symbols >= 0 {
        symbols * 500000 / 9
    } else {
        -((-symbols) * 500000 / 9)
    }
}

/// Convert a span of nanoseconds to whole symbol periods
/// (18000 symbols per second).
pub fn ns_to_symbols(ns: i64) -> (r: i32)
    requires
        -i64::MAX <= 9 * ns <= i64::MAX,
        i32::MIN <= spec_ns_to_symbols(ns as int) <= i32::MAX,
    ensures
        r == spec_ns_to_symbols(ns as int),
{
    if ns >= 0 {
        div_euclid_i64(ns * 9, 500000) as i32
    } else {
        (-div_euclid_i64((-ns) * 9, 500000)) as i32
    }
}

/// Convert a number of symbol periods to nanoseconds.
pub fn symbols_to_ns(symbols: i32) -> (r: i64)
    ensures
        r == spec_symbols_to_ns(symbols as int),
{
    let s: i64 = symbols as i64;
    if s >= 0 {
        div_euclid_i64(s * 500000, 9)
    } else {
        -div_euclid_i64((-s) * 500000, 9)
    }
}

/// Within one hyperframe the symbol index stays within the
/// hyperframe's symbol count.
pub proof fn lemma_hsym_range(ns: int)
    requires
        0 <= ns < HYPERFRAME_NS,
    ensures
        0 <= spec_ns_to_symbols(ns) < SYMBOLS_PER_HYPERFRAME,
{
    vstd::arithmetic::div_mod::lemma_div_pos_is_pos(ns * 9, 500000);
    vstd::arithmetic::div_mod::lemma_div_is_ordered(ns * 9, 61199999999int * 9, 500000);
    vstd::arithmetic::div_mod::lemma_fundamental_div_mod_converse(
        61199999999int * 9,
        500000,
        1101599,
        499991,
    );
}

/// The symbol index rolls over exactly at the hyperframe boundary: the
/// last nanosecond of a hyperframe still lies in the last symbol, and
/// one full hyperframe reaches the symbol count.
pub proof fn lemma_hyperframe_wrap()
    ensures
        spec_ns_to_symbols(HYPERFRAME_NS - 1int) < SYMBOLS_PER_HYPERFRAME,
        spec_ns_to_symbols(HYPERFRAME_NS as int) >= SYMBOLS_PER_HYPERFRAME,
{
    lemma_hsym_range(HYPERFRAME_NS - 1int);
    vstd::arithmetic::div_mod::lemma_fundamental_div_mod_converse(
        61200000000int * 9,
        500000,
        1101600,
        0,
    );
}

/// pi/4-DQPSK phase mapper.
pub struct DqpskMapper {
    /// Current phase in multiples of pi/4, in 0..8.
    pub phase: u8,
}

/// Phase advance for one dibit, in multiples of pi/4 reduced modulo 8:
/// (F,F) advances by 1, (F,T) by 3, (T,T) by -3 and (T,F) by -1.
pub open spec fn dqpsk_step(bit0: bool, bit1: bool) -> int {
    match (bit0, bit1) {
        (true, true) => 5,
        (true, false) => 7,
        (false, false) => 1,
        (false, true) => 3,
    }
}

/// The mapper phase after one dibit.
pub open spec fn dqpsk_next(phase: int, bit0: bool, bit1: bool) -> int {
    (phase + dqpsk_step(bit0, bit1)) % 8
}

impl DqpskMapper {
    /// The phase is in range.
    pub open spec fn wf(self) -> bool {
        self.phase < 8
    }

    pub fn new() -> (m: Self)
        ensures
            m.phase == 0,
            m.wf(),
    {
        Self { phase: 0 }
    }

    pub fn reset_phase(&mut self)
        ensures
            final(self).phase == 0,
            final(self).wf(),
    {
        self.phase = 0;
    }

    /// Advance the phase by one dibit and return the new phase, which
    /// indexes the 8-point constellation of unit vectors at multiples
    /// of pi/4.
    pub fn symbol(&mut self, bit0: bool, bit1: bool) -> (r: u8)
        requires
            old(self).wf(),
        ensures
            final(self).phase == dqpsk_next(old(self).phase as int, bit0, bit1),
            r == final(self).phase,
            final(self).wf(),
    {
        let step: u8 = if bit0 {
            if bit1 { 5 } else { 7 }
        } else {
            if bit1 { 3 } else { 1 }
        };
        self.phase = (self.phase + step) % 8;
        self.phase
    }
}

/// One full cycle of dibits (F,F),(T,F),(T,T),(F,T) advances the phase
/// by 1 - 1 - 3 + 3 = 0: it returns the mapper to its starting phase.
pub proof fn lemma_dqpsk_cycle(phase: int)
    requires
        0 <= phase < 8,
    ensures
        dqpsk_next(
            dqpsk_next(dqpsk_next(dqpsk_next(phase, false, false), true, false), true, true),
            false,
            true,
        ) == phase,
{
}

/// The dibit a burst supplies for the symbol `symnum` of its slot, or
/// `None` when the burst carries no symbol there.  Bits are stored one
/// per byte; a byte is the bit it holds, read as "not zero".
pub open spec fn burst_dibit(b: TxBurst, symnum: int) -> Option<(bool, bool)> {
    match b {
        TxBurst::Empty => Option::None,
        TxBurst::Dl(bits) => Option::Some((bits[2 * symnum] != 0, bits[2 * symnum + 1] != 0)),
        TxBurst::Dmo(bits) => if 2 * symnum + 1 < 470 {
            Option::Some((bits[2 * symnum] != 0, bits[2 * symnum + 1] != 0))
        } else {
            Option::None
        },
    }
}

/// Modulator for one carrier: tracks the position within the
/// hyperframe and emits one constellation phase per symbol period.
pub struct Modulator {
    /// Timestamp at the beginning of a hyperframe, used as a reference
    /// point.
    pub htime: i64,
    /// Symbol index within the hyperframe at the previous call.
    pub prev_hsym: i32,
    /// DQPSK phase mapper.
    pub mapper: DqpskMapper,
    /// Slot number of the current burst.
    pub burst_slot: SlotNumber,
    /// Current burst being transmitted.
    pub burst: TxBurst,
}

/// Symbol index within the hyperframe at `time`, for an anchor
/// `htime`: the time difference wraps around the hyperframe.
pub open spec fn spec_hsym(htime: int, time: int) -> int {
    spec_ns_to_symbols((time - htime) % (HYPERFRAME_NS as int))
}

impl Modulator {
    /// Mapper phase, burst slot and previous symbol index are all in
    /// their ranges.
    pub open spec fn wf(self) -> bool {
        &&& self.mapper.wf()
        &&& slot_valid(self.burst_slot)
        &&& 0 <= self.prev_hsym < SYMBOLS_PER_HYPERFRAME
    }

    /// The time difference to the anchor stays in the machine range.
    pub open spec fn time_in_range(self, time: int) -> bool {
        i64::MIN <= time - self.htime <= i64::MAX
    }

    /// True when `time` falls in a new symbol whose slot differs from
    /// the slot of the loaded burst: the caller must fetch a burst from
    /// the upper layer before sampling.
    pub open spec fn spec_needs_burst(self, time: int) -> bool {
        let hsym = spec_hsym(self.htime as int, time);
        hsym != self.prev_hsym && slot_of_index(hsym / 255) != self.burst_slot
    }

    /// The modulator state and emitted constellation phase for a sample
    /// at `time`, where `new_burst` is the burst fetched for a new slot
    /// (`None` when no new slot begins).  Between symbols the state is
    /// unchanged and nothing is emitted; at a symbol boundary the burst
    /// decides the dibit, and a burst of `None` leaves a gap.
    pub open spec fn spec_sample(self, time: int, new_burst: Option<TxBurst>) -> (Modulator, Option<
        u8,
    >) {
        let hsym = spec_hsym(self.htime as int, time);
        if hsym == self.prev_hsym {
            (self, Option::None)
        } else {
            let symnum = hsym % 255;
            let slot = slot_of_index(hsym / 255);
            let burst = if slot != self.burst_slot {
                match new_burst {
                    Option::Some(b) => b,
                    Option::None => self.burst,
                }
            } else {
                self.burst
            };
            let m1 = Modulator {
                burst_slot: slot,
                burst,
                prev_hsym: hsym as i32,
                ..self
            };
            match burst_dibit(burst, symnum) {
                Option::None => (m1, Option::None),
                Option::Some((b0, b1)) => {
                    let ph = dqpsk_next(self.mapper.phase as int, b0, b1);
                    (
                        Modulator { mapper: DqpskMapper { phase: ph as u8 }, ..m1 },
                        Option::Some(ph as u8),
                    )
                },
            }
        }
    }

    pub fn new() -> (m: Self)
        ensures
            m.htime == 0,
            m.prev_hsym == 255,
            m.mapper.phase == 0,
            m.burst_slot == (SlotNumber { timeslot: 4, frame: 18, multiframe: 60 }),
            m.burst is Empty,
            m.wf(),
    {
        Self {
            htime: 0,
            prev_hsym: 255,
            burst_slot: SlotNumber::new(4, 18, 60),
            burst: TxBurst::Empty,
            mapper: DqpskMapper::new(),
        }
    }

    /// Decide whether the sample at `time` needs a new burst, and for
    /// which slot.  The returned time is the start time of that slot.
    pub fn needs_burst(&self, time: i64) -> (r: Option<(SlotNumber, i64)>)
        requires
            self.wf(),
            self.time_in_range(time as int),
            i64::MIN + HYPERFRAME_NS <= time <= i64::MAX - HYPERFRAME_NS,
        ensures
            r is Some <==> self.spec_needs_burst(time as int),
            r matches Some(p) ==> {
                let hsym = spec_hsym(self.htime as int, time as int);
                &&& p.0 == slot_of_index(hsym / 255)
                &&& slot_valid(p.0)
                &&& p.1 == time - (time - self.htime) % (HYPERFRAME_NS as int)
                    + spec_symbols_to_ns(255 * (hsym / 255))
            },
    {
        let rem: i64 = rem_euclid_i64(time - self.htime, HYPERFRAME_NS);
        proof {
            lemma_hsym_range(rem as int);
        }
        let hsym: i32 = ns_to_symbols(rem);
        if hsym != self.prev_hsym {
            let slot_idx: i32 = div_euclid_i32(hsym, 255);
            let slot = SlotNumber::from_int(slot_idx);
            if slot != self.burst_slot {
                proof {
                    lemma_slot_ofs_range(hsym as int);
                }
                let slot_time: i64 = time - rem + symbols_to_ns(slot_idx * 255);
                Option::Some((slot, slot_time))
            } else {
                Option::None
            }
        } else {
            Option::None
        }
    }

    /// Produce one transmit sample: the constellation phase of a new
    /// symbol, or `None` between symbols and in slots with no burst.
    /// `new_burst` must be the burst fetched for the new slot exactly
    /// when `needs_burst` asks for one.
    pub fn sample(&mut self, time: i64, new_burst: Option<TxBurst>) -> (out: Option<u8>)
        requires
            old(self).wf(),
            old(self).time_in_range(time as int),
            new_burst is Some <==> old(self).spec_needs_burst(time as int),
        ensures
            (*final(self), out) == old(self).spec_sample(time as int, new_burst),
            final(self).wf(),
            final(self).htime == old(self).htime,
    {
        let rem: i64 = rem_euclid_i64(time - self.htime, HYPERFRAME_NS);
        proof {
            lemma_hsym_range(rem as int);
        }
        let hsym: i32 = ns_to_symbols(rem);
        if hsym == self.prev_hsym {
            return Option::None;
        }
        let symnum: i32 = rem_euclid_i32(hsym, 255);
        let slot_idx: i32 = div_euclid_i32(hsym, 255);
        let slot = SlotNumber::from_int(slot_idx);
        if slot != self.burst_slot {
            self.burst_slot = slot;
            match new_burst {
                Option::Some(b) => {
                    self.burst = b;
                },
                Option::None => {
                    proof {
                        assert(false);
                    }
                },
            }
        }
        self.prev_hsym = hsym;
        let burst = self.burst;
        match burst {
            TxBurst::Empty => Option::None,
            TxBurst::Dl(bits) => {
                let i0: usize = (symnum as usize) * 2;
                let b0 = bits[i0] != 0;
                let b1 = bits[i0 + 1] != 0;
                Option::Some(self.mapper.symbol(b0, b1))
            },
            TxBurst::Dmo(bits) => {
                if symnum < 235 {
                    let i0: usize = (symnum as usize) * 2;
                    let b0 = bits[i0] != 0;
                    let b1 = bits[i0 + 1] != 0;
                    Option::Some(self.mapper.symbol(b0, b1))
                } else {
                    Option::None
                }
            },
        }
    }
}

/// A slot's first symbol index stays within the i32 range after
/// scaling back to a symbol count.
pub proof fn lemma_slot_ofs_range(hsym: int)
    requires
        0 <= hsym < SYMBOLS_PER_HYPERFRAME,
    ensures
        0 <= hsym / 255 < 4320,
        0 <= spec_symbols_to_ns(255 * (hsym / 255)) < HYPERFRAME_NS,
{
    vstd::arithmetic::div_mod::lemma_div_pos_is_pos(hsym, 255);
    vstd::arithmetic::div_mod::lemma_div_is_ordered(hsym, SYMBOLS_PER_HYPERFRAME as int - 1, 255);
    assert((1101599int) / 255 == 4319) by {
        vstd::arithmetic::div_mod::lemma_fundamental_div_mod_converse(1101599, 255, 4319, 254);
    }
    let k = hsym / 255;
    assert(0 <= 255 * k <= 1101345);
    assert(spec_symbols_to_ns(255 * k) == 255 * k * 500000 / 9);
    vstd::arithmetic::div_mod::lemma_div_pos_is_pos(255 * k * 500000, 9);
    vstd::arithmetic::div_mod::lemma_div_is_ordered(255 * k * 500000, 1101345int * 500000, 9);
    assert(255 * k * 500000 <= 1101345int * 500000) by (nonlinear_arith)
        requires 0 <= 255 * k <= 1101345;
    assert((1101345int * 500000) / 9 == 61185833333) by {
        vstd::arithmetic::div_mod::lemma_fundamental_div_mod_converse(
            1101345int * 500000,
            9,
            61185833333,
            3,
        );
    }
}

} // verus!
