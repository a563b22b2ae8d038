//! Cascaded-integrator-comb digital down- and up-converters.
//!
//! Both converters work on integer complex samples with an embedded
//! numerically-controlled oscillator: a phase accumulator indexing a
//! shared Q15 sine table.  All sample arithmetic wraps modulo 2^64 as
//! the machine's does; the scaling contract of the surrounding system
//! keeps the useful signal inside the integer range, and the comb
//! stages cancel any integrator wrap-around that does occur.  The
//! contracts below state the exact wrapped recurrence that one
//! processing call performs.

use vstd::prelude::*;
use crate::eucl::{div_euclid_i64, rem_euclid_i64};

verus! {

/// One integer I/Q sample: a complex value with 64-bit parts.
#[derive(Clone, Copy, PartialEq, Eq, Structural, Debug)]
pub struct IqSample {
    /// Real part.
    pub re: i64,
    /// Imaginary part.
    pub im: i64,
}

/// One sine table entry: a Q15 complex value.
#[derive(Clone, Copy, PartialEq, Eq, Structural, Debug)]
pub struct SineEntry {
    /// Real part.
    pub re: i16,
    /// Imaginary part.
    pub im: i16,
}

/// The zero sample.
pub open spec fn iq_zero() -> IqSample {
    IqSample { re: 0, im: 0 }
}

/// Sum wrapped into the 64-bit signed range.
pub open spec fn wadd(a: i64, b: i64) -> i64 {
    vstd::wrapping::i64_specs::wrapping_add(a, b)
}

/// Difference wrapped into the 64-bit signed range.
pub open spec fn wsub(a: i64, b: i64) -> i64 {
    vstd::wrapping::i64_specs::wrapping_sub(a, b)
}

/// Product wrapped into the 64-bit signed range.
pub open spec fn wmul(a: i64, b: i64) -> i64 {
    vstd::wrapping::i64_specs::wrapping_mul(a, b)
}

/// Arithmetic shift right by 16 bits: floor division by 65536.
pub open spec fn sar16(x: i64) -> i64 {
    (x / 65536) as i64
}

/// Parts-wise wrapped sum of two integer complex values.
pub open spec fn cadd(a: IqSample, b: IqSample) -> IqSample {
    IqSample { re: wadd(a.re, b.re), im: wadd(a.im, b.im) }
}

/// Parts-wise wrapped difference of two integer complex values.
pub open spec fn csub(a: IqSample, b: IqSample) -> IqSample {
    IqSample { re: wsub(a.re, b.re), im: wsub(a.im, b.im) }
}

/// Wrapped complex product of a buffer value and a sine entry, each
/// part shifted right by 16 bits after the multiplication.  Shifting
/// after the product preserves precision; the down-converter mixes
/// with this form.
pub open spec fn mix_after_shift(v: IqSample, s: SineEntry) -> IqSample {
    IqSample {
        re: sar16(wsub(wmul(v.re, s.re as i64), wmul(v.im, s.im as i64))),
        im: sar16(wadd(wmul(v.re, s.im as i64), wmul(v.im, s.re as i64))),
    }
}

/// Wrapped complex product of an integrator value and a sine entry,
/// with the integrator parts shifted right by 16 bits before the
/// multiplication.  Shifting first avoids overflow on the grown
/// interpolator output; the up-converter mixes with this form.
pub open spec fn mix_before_shift(v: IqSample, s: SineEntry) -> IqSample {
    IqSample {
        re: wsub(wmul(sar16(v.re), s.re as i64), wmul(sar16(v.im), s.im as i64)),
        im: wadd(wmul(sar16(v.re), s.im as i64), wmul(sar16(v.im), s.re as i64)),
    }
}

fn iq_add(a: IqSample, b: IqSample) -> (r: IqSample)
    ensures
        r == cadd(a, b),
{
    IqSample { re: a.re.wrapping_add(b.re), im: a.im.wrapping_add(b.im) }
}

fn iq_sub(a: IqSample, b: IqSample) -> (r: IqSample)
    ensures
        r == csub(a, b),
{
    IqSample { re: a.re.wrapping_sub(b.re), im: a.im.wrapping_sub(b.im) }
}

fn sar16_i64(x: i64) -> (r: i64)
    ensures
        r == sar16(x),
{
    div_euclid_i64(x, 65536)
}

/// Multiply a buffer value with a sine table value, shifting right
/// after multiplication for better precision.
fn mul_buf_sine_a(v: IqSample, s: SineEntry) -> (r: IqSample)
    ensures
        r == mix_after_shift(v, s),
{
    let sre = s.re as i64;
    let sim = s.im as i64;
    let mre = v.re.wrapping_mul(sre).wrapping_sub(v.im.wrapping_mul(sim));
    let mim = v.re.wrapping_mul(sim).wrapping_add(v.im.wrapping_mul(sre));
    IqSample { re: sar16_i64(mre), im: sar16_i64(mim) }
}

/// Multiply an integrator value with a sine table value, shifting
/// right before multiplication to avoid overflow.
fn mul_int_sine_b(v: IqSample, s: SineEntry) -> (r: IqSample)
    ensures
        r == mix_before_shift(v, s),
{
    let sre = s.re as i64;
    let sim = s.im as i64;
    let vre = sar16_i64(v.re);
    let vim = sar16_i64(v.im);
    IqSample {
        re: vre.wrapping_mul(sre).wrapping_sub(vim.wrapping_mul(sim)),
        im: vre.wrapping_mul(sim).wrapping_add(vim.wrapping_mul(sre)),
    }
}

/// Advancing a reduced phase by a reduced increment and conditionally
/// subtracting the table length is reduction modulo the length.
proof fn lemma_phase_step(phase: int, freq: int, len: int)
    requires
        0 <= phase < len,
        0 <= freq < len,
    ensures
        (phase + freq) % len == if phase + freq < len {
            phase + freq
        } else {
            phase + freq - len
        },
{
    if phase + freq < len {
        vstd::arithmetic::div_mod::lemma_small_mod((phase + freq) as nat, len as nat);
    } else {
        vstd::arithmetic::div_mod::lemma_fundamental_div_mod_converse(
            phase + freq,
            len,
            1,
            phase + freq - len,
        );
    }
}

/// The reduced phase increment of a mixer at `freq` channel offsets,
/// for a table of length `len`: `sign * freq` modulo `len`.
pub open spec fn reduced_freq(freq: int, len: int) -> int {
    freq % len
}

/// Compute `(-freq) mod len` without negating `freq`.
fn neg_rem_euclid(freq: i64, len: i64) -> (r: i64)
    requires
        1 <= len,
    ensures
        r == (-(freq as int)) % (len as int),
        0 <= r < len,
{
    let m = rem_euclid_i64(freq, len);
    if m == 0 {
        proof {
            let q0 = freq as int / len as int;
            vstd::arithmetic::div_mod::lemma_fundamental_div_mod(freq as int, len as int);
            assert((-q0) * (len as int) + 0 == -(freq as int)) by (nonlinear_arith)
                requires
                    freq as int == (len as int) * q0 + m as int,
                    m as int == 0,
            ;
            vstd::arithmetic::div_mod::lemma_fundamental_div_mod_converse(
                -(freq as int),
                len as int,
                -q0,
                0,
            );
        }
        0
    } else {
        proof {
            let q0 = freq as int / len as int;
            vstd::arithmetic::div_mod::lemma_fundamental_div_mod(freq as int, len as int);
            assert((-q0 - 1) * (len as int) + (len as int - m as int) == -(freq as int))
                by (nonlinear_arith)
                requires
                    freq as int == (len as int) * q0 + m as int,
            ;
            vstd::arithmetic::div_mod::lemma_fundamental_div_mod_converse(
                -(freq as int),
                len as int,
                -q0 - 1,
                len as int - m as int,
            );
        }
        len - m
    }
}

/// Ghost state of a down-converter mid-block: the integrator chain,
/// the per-block accumulator and the oscillator phase.
pub struct DdcState {
    /// Integrator registers.
    pub integ: Seq<IqSample>,
    /// Per-block accumulator (the collapsed last integrator and first
    /// comb).
    pub acc: IqSample,
    /// Oscillator phase, an index into the sine table.
    pub phase: int,
}

/// One input sample of the down-converter: the accumulator takes the
/// head integrator, the integrator chain shifts tail-to-head using the
/// previous iteration's values, the mixed input enters the tail, and
/// the phase advances by `freq` modulo the table length.
pub open spec fn ddc_step(st: DdcState, x: IqSample, table: Seq<SineEntry>, freq: int) -> DdcState {
    let n = st.integ.len() as int;
    DdcState {
        acc: cadd(st.acc, st.integ[0]),
        integ: Seq::new(
            st.integ.len(),
            |i: int|
                if i < n - 1 {
                    cadd(st.integ[i], st.integ[i + 1])
                } else {
                    cadd(st.integ[i], mix_after_shift(x, table[st.phase]))
                },
        ),
        phase: (st.phase + freq) % (table.len() as int),
    }
}

/// The down-converter state after a whole block of input samples.
pub open spec fn ddc_run(
    st: DdcState,
    input: Seq<IqSample>,
    table: Seq<SineEntry>,
    freq: int,
) -> DdcState
    decreases input.len(),
{
    if input.len() == 0 {
        st
    } else {
        ddc_step(ddc_run(st, input.drop_last(), table, freq), input.last(), table, freq)
    }
}

/// The accumulator after the first `n` comb stages: each stage
/// subtracts its register from the running value.
pub open spec fn comb_acc(acc0: IqSample, comb: Seq<IqSample>, n: int) -> IqSample
    decreases n,
{
    if n <= 0 {
        acc0
    } else {
        csub(comb_acc(acc0, comb, n - 1), comb[n - 1])
    }
}

/// Digital down-converter using a CIC filter.
/// Number of integrator and comb stages is `stages + 1`; the last
/// integrator and the first comb collapse into the per-block
/// accumulator.  Minimum supported is one stored stage, i.e. a
/// 2-stage CIC.
pub struct CicDdc {
    /// Oscillator phase, an index into the sine table.
    pub phase: usize,
    /// Phase increment per input sample.
    pub freq: usize,
    /// Integrator registers.
    pub integrator: Vec<IqSample>,
    /// Comb registers.
    pub comb: Vec<IqSample>,
    /// Q15 complex oscillator table.
    pub sinetable: Vec<SineEntry>,
}

impl CicDdc {
    /// Register counts agree and phase and increment index the table.
    pub open spec fn wf(self) -> bool {
        &&& 1 <= self.sinetable@.len() <= 0x8000_0000
        &&& self.integrator@.len() == self.comb@.len()
        &&& 1 <= self.integrator@.len()
        &&& (self.phase as int) < self.sinetable@.len()
        &&& (self.freq as int) < self.sinetable@.len()
    }

    /// A fresh down-converter: zeroed state, phase increment
    /// `(-freq) mod len` so that mixing shifts the carrier down.
    pub fn new(sinetable: Vec<SineEntry>, freq: i64, stages: usize) -> (c: Self)
        requires
            1 <= stages,
            1 <= sinetable@.len() <= 0x8000_0000,
        ensures
            c.wf(),
            c.phase == 0,
            c.freq as int == reduced_freq(-(freq as int), sinetable@.len() as int),
            c.integrator@ == Seq::new(stages as nat, |i: int| iq_zero()),
            c.comb@ == Seq::new(stages as nat, |i: int| iq_zero()),
            c.sinetable@ == sinetable@,
    {
        let len_i: i64 = sinetable.len() as i64;
        let f = neg_rem_euclid(freq, len_i);
        let mut integrator: Vec<IqSample> = Vec::new();
        let mut comb: Vec<IqSample> = Vec::new();
        let mut i: usize = 0;
        while i < stages
            invariant
                i <= stages,
                integrator@ == Seq::new(i as nat, |j: int| iq_zero()),
                comb@ == Seq::new(i as nat, |j: int| iq_zero()),
            decreases stages - i,
        {
            integrator.push(IqSample { re: 0, im: 0 });
            comb.push(IqSample { re: 0, im: 0 });
            proof {
                assert(integrator@ =~= Seq::new((i + 1) as nat, |j: int| iq_zero()));
                assert(comb@ =~= Seq::new((i + 1) as nat, |j: int| iq_zero()));
            }
            i += 1;
        }
        Self { phase: 0, freq: f as usize, integrator, comb, sinetable }
    }

    /// Process a block of samples, returning one output sample.
    /// The block length is the decimation ratio.  The new state and the
    /// output are exactly the wrapped CIC recurrence: the integrators
    /// fold the mixed input over the block, and the comb stages then
    /// difference the block sum at the decimated rate.
    pub fn process(&mut self, input: &Vec<IqSample>) -> (out: IqSample)
        requires
            old(self).wf(),
        ensures
            final(self).wf(),
            final(self).freq == old(self).freq,
            final(self).sinetable@ == old(self).sinetable@,
            ({
                let r = ddc_run(
                    DdcState {
                        integ: old(self).integrator@,
                        acc: iq_zero(),
                        phase: old(self).phase as int,
                    },
                    input@,
                    old(self).sinetable@,
                    old(self).freq as int,
                );
                let n = old(self).integrator@.len() as int;
                &&& final(self).integrator@ == r.integ
                &&& final(self).phase as int == r.phase
                &&& final(self).comb@ == Seq::new(
                    old(self).comb@.len(),
                    |i: int| comb_acc(r.acc, old(self).comb@, i),
                )
                &&& out == comb_acc(r.acc, old(self).comb@, n)
            }),
    {
        let ghost st0 = DdcState {
            integ: self.integrator@,
            acc: iq_zero(),
            phase: self.phase as int,
        };
        let ghost table = self.sinetable@;
        let ghost f = self.freq as int;
        let ghost comb0 = self.comb@;
        let n = self.integrator.len();
        let len = self.sinetable.len();
        let mut acc = IqSample { re: 0, im: 0 };
        let mut k: usize = 0;
        while k < input.len()
            invariant
                k <= input@.len(),
                n == self.integrator@.len(),
                len == self.sinetable@.len(),
                1 <= n,
                1 <= len <= 0x8000_0000,
                self.phase < len,
                self.freq < len,
                self.sinetable@ == table,
                self.freq as int == f,
                self.comb@ == comb0,
                ({
                    let r = ddc_run(st0, input@.take(k as int), table, f);
                    &&& self.integrator@ == r.integ
                    &&& acc == r.acc
                    &&& self.phase as int == r.phase
                }),
            decreases input@.len() - k,
        {
            let ghost st_prev = DdcState {
                integ: self.integrator@,
                acc: acc,
                phase: self.phase as int,
            };
            let ghost integ0 = self.integrator@;
            let x = input[k];
            acc = iq_add(acc, self.integrator[0]);
            let mut j: usize = 0;
            while j < n - 1
                invariant
                    j <= n - 1,
                    n == self.integrator@.len(),
                    1 <= n,
                    len == self.sinetable@.len(),
                    self.phase as int == st_prev.phase,
                    self.phase < len,
                    self.freq < len,
                    self.sinetable@ == table,
                    self.freq as int == f,
                    self.comb@ == comb0,
                    integ0.len() == n,
                    forall|i: int| 0 <= i < j ==> self.integrator@[i] == cadd(
                        integ0[i],
                        integ0[i + 1],
                    ),
                    forall|i: int| j <= i < n ==> self.integrator@[i] == integ0[i],
                decreases n - 1 - j,
            {
                let v = iq_add(self.integrator[j], self.integrator[j + 1]);
                self.integrator[j] = v;
                j += 1;
            }
            let sv = self.sinetable[self.phase];
            let mixv = mul_buf_sine_a(x, sv);
            let last = n - 1;
            let v2 = iq_add(self.integrator[last], mixv);
            self.integrator[last] = v2;
            self.phase = self.phase + self.freq;
            if self.phase >= len {
                self.phase = self.phase - len;
            }
            proof {
                lemma_phase_step(st_prev.phase, f, len as int);
                let stepped = ddc_step(st_prev, x, table, f);
                assert forall|i: int| 0 <= i < n as int implies self.integrator@[i]
                    == stepped.integ[i] by {
                    if i < n as int - 1 {
                        assert(self.integrator@[i] == cadd(integ0[i], integ0[i + 1]));
                    } else {
                        assert(self.integrator@[i] == cadd(
                            integ0[i],
                            mix_after_shift(x, table[st_prev.phase]),
                        ));
                    }
                }
                assert(self.integrator@ =~= stepped.integ);
                assert(self.phase as int == stepped.phase);
                assert(acc == stepped.acc);
                let s = input@;
                let r_prev = ddc_run(st0, s.take(k as int), table, f);
                assert(st_prev == r_prev);
                assert(s.take(k as int + 1).drop_last() =~= s.take(k as int));
                assert(s.take(k as int + 1).last() == s[k as int]);
                assert(ddc_run(st0, s.take(k as int + 1), table, f) == ddc_step(
                    r_prev,
                    x,
                    table,
                    f,
                ));
                assert(ddc_run(st0, s.take(k as int + 1), table, f) == stepped);
            }
            k += 1;
        }
        proof {
            assert(input@.take(input@.len() as int) =~= input@);
        }
        let ghost racc = acc;
        let mut j: usize = 0;
        while j < n
            invariant
                j <= n,
                n == self.integrator@.len(),
                self.comb@.len() == n,
                comb0.len() == n,
                len == self.sinetable@.len(),
                self.phase < len,
                self.freq < len,
                1 <= len <= 0x8000_0000,
                self.sinetable@ == table,
                self.freq as int == f,
                acc == comb_acc(racc, comb0, j as int),
                forall|i: int| 0 <= i < j ==> self.comb@[i] == comb_acc(racc, comb0, i),
                forall|i: int| j <= i < n ==> self.comb@[i] == comb0[i],
                self.integrator@ == ddc_run(st0, input@, table, f).integ,
                self.phase as int == ddc_run(st0, input@, table, f).phase,
            decreases n - j,
        {
            let prev = acc;
            acc = iq_sub(acc, self.comb[j]);
            self.comb[j] = prev;
            j += 1;
        }
        proof {
            assert(self.comb@ =~= Seq::new(comb0.len(), |i: int| comb_acc(racc, comb0, i)));
        }
        acc
    }
}

/// Ghost state of an up-converter mid-block: the integrator chain and
/// the oscillator phase.
pub struct DucState {
    /// Integrator registers.
    pub integ: Seq<IqSample>,
    /// Oscillator phase, an index into the sine table.
    pub phase: int,
}

/// One output sample of the up-converter: the phase advances by `freq`
/// modulo the table length, the integrator chain shifts tail-to-head
/// using the previous iteration's values, and the held comb output `s`
/// enters the tail.
pub open spec fn duc_step(st: DucState, s: IqSample, table: Seq<SineEntry>, freq: int) -> DucState {
    let n = st.integ.len() as int;
    DucState {
        integ: Seq::new(
            st.integ.len(),
            |i: int|
                if i < n - 1 {
                    cadd(st.integ[i], st.integ[i + 1])
                } else {
                    cadd(st.integ[i], s)
                },
        ),
        phase: (st.phase + freq) % (table.len() as int),
    }
}

/// The up-converter state after `k` output samples.
pub open spec fn duc_run(
    st: DucState,
    s: IqSample,
    table: Seq<SineEntry>,
    freq: int,
    k: int,
) -> DucState
    decreases k,
{
    if k <= 0 {
        st
    } else {
        duc_step(duc_run(st, s, table, freq, k - 1), s, table, freq)
    }
}

/// The mixed value the up-converter adds to output sample `k`.
pub open spec fn duc_emit(
    st: DucState,
    s: IqSample,
    table: Seq<SineEntry>,
    freq: int,
    k: int,
) -> IqSample {
    let r = duc_run(st, s, table, freq, k);
    mix_before_shift(r.integ[0], table[r.phase])
}

/// Digital up-converter using a CIC filter.
/// Number of integrator and comb stages is `stages + 1`; the last comb
/// and the first integrator collapse into holding the input across the
/// block.  Minimum supported is one stored stage, i.e. a 2-stage CIC.
pub struct CicDuc {
    /// Oscillator phase, an index into the sine table.
    pub phase: usize,
    /// Phase increment per output sample.
    pub freq: usize,
    /// Integrator registers.
    pub integrator: Vec<IqSample>,
    /// Comb registers.
    pub comb: Vec<IqSample>,
    /// Q15 complex oscillator table.
    pub sinetable: Vec<SineEntry>,
}

impl CicDuc {
    /// Register counts agree and phase and increment index the table.
    pub open spec fn wf(self) -> bool {
        &&& 1 <= self.sinetable@.len() <= 0x8000_0000
        &&& self.integrator@.len() == self.comb@.len()
        &&& 1 <= self.integrator@.len()
        &&& (self.phase as int) < self.sinetable@.len()
        &&& (self.freq as int) < self.sinetable@.len()
    }

    /// A fresh up-converter: zeroed state, phase increment
    /// `freq mod len` so that mixing shifts the signal up.
    pub fn new(sinetable: Vec<SineEntry>, freq: i64, stages: usize) -> (c: Self)
        requires
            1 <= stages,
            1 <= sinetable@.len() <= 0x8000_0000,
        ensures
            c.wf(),
            c.phase == 0,
            c.freq as int == reduced_freq(freq as int, sinetable@.len() as int),
            c.integrator@ == Seq::new(stages as nat, |i: int| iq_zero()),
            c.comb@ == Seq::new(stages as nat, |i: int| iq_zero()),
            c.sinetable@ == sinetable@,
    {
        let len_i: i64 = sinetable.len() as i64;
        let f = rem_euclid_i64(freq, len_i);
        let mut integrator: Vec<IqSample> = Vec::new();
        let mut comb: Vec<IqSample> = Vec::new();
        let mut i: usize = 0;
        while i < stages
            invariant
                i <= stages,
                integrator@ == Seq::new(i as nat, |j: int| iq_zero()),
                comb@ == Seq::new(i as nat, |j: int| iq_zero()),
            decreases stages - i,
        {
            integrator.push(IqSample { re: 0, im: 0 });
            comb.push(IqSample { re: 0, im: 0 });
            proof {
                assert(integrator@ =~= Seq::new((i + 1) as nat, |j: int| iq_zero()));
                assert(comb@ =~= Seq::new((i + 1) as nat, |j: int| iq_zero()));
            }
            i += 1;
        }
        Self { phase: 0, freq: f as usize, integrator, comb, sinetable }
    }

    /// Process one input sample, adding output samples to a buffer
    /// whose length is the interpolation ratio.  The comb stages
    /// difference the input at the low rate; the integrators then fold
    /// the held comb output across the block, and each output sample
    /// takes the mixed head integrator.  All of it is the exact
    /// wrapped CIC recurrence.
    pub fn process(&mut self, input: IqSample, output: &mut Vec<IqSample>)
        requires
            old(self).wf(),
        ensures
            final(self).wf(),
            final(self).freq == old(self).freq,
            final(self).sinetable@ == old(self).sinetable@,
            final(output)@.len() == old(output)@.len(),
            ({
                let n = old(self).integrator@.len() as int;
                let s1 = comb_acc(input, old(self).comb@, n);
                let st0 = DucState { integ: old(self).integrator@, phase: old(self).phase as int };
                let table = old(self).sinetable@;
                let f = old(self).freq as int;
                let cnt = old(output)@.len() as int;
                &&& final(self).comb@ == Seq::new(
                    old(self).comb@.len(),
                    |i: int| comb_acc(input, old(self).comb@, i),
                )
                &&& final(self).integrator@ == duc_run(st0, s1, table, f, cnt).integ
                &&& final(self).phase as int == duc_run(st0, s1, table, f, cnt).phase
                &&& forall|k: int|
                    0 <= k < cnt ==> #[trigger] final(output)@[k] == cadd(
                        old(output)@[k],
                        duc_emit(st0, s1, table, f, k),
                    )
            }),
    {
        let ghost st0 = DucState { integ: self.integrator@, phase: self.phase as int };
        let ghost table = self.sinetable@;
        let ghost f = self.freq as int;
        let ghost comb0 = self.comb@;
        let ghost out0 = output@;
        let n = self.integrator.len();
        let len = self.sinetable.len();
        let mut sample = input;
        let mut j: usize = 0;
        while j < n
            invariant
                j <= n,
                n == self.integrator@.len(),
                self.comb@.len() == n,
                comb0.len() == n,
                len == self.sinetable@.len(),
                1 <= n,
                1 <= len <= 0x8000_0000,
                self.phase < len,
                self.freq < len,
                self.sinetable@ == table,
                self.freq as int == f,
                self.integrator@ == st0.integ,
                self.phase as int == st0.phase,
                sample == comb_acc(input, comb0, j as int),
                forall|i: int| 0 <= i < j ==> self.comb@[i] == comb_acc(input, comb0, i),
                forall|i: int| j <= i < n ==> self.comb@[i] == comb0[i],
            decreases n - j,
        {
            let prev = sample;
            sample = iq_sub(sample, self.comb[j]);
            self.comb[j] = prev;
            j += 1;
        }
        proof {
            assert(self.comb@ =~= Seq::new(comb0.len(), |i: int| comb_acc(input, comb0, i)));
        }
        let ghost s1 = comb_acc(input, comb0, n as int);
        let cnt = output.len();
        let mut k: usize = 0;
        while k < cnt
            invariant
                k <= cnt,
                cnt == output@.len(),
                out0.len() == cnt,
                n == self.integrator@.len(),
                self.comb@.len() == n,
                len == self.sinetable@.len(),
                1 <= n,
                1 <= len <= 0x8000_0000,
                self.phase < len,
                self.freq < len,
                self.sinetable@ == table,
                self.freq as int == f,
                self.comb@ == Seq::new(comb0.len(), |i: int| comb_acc(input, comb0, i)),
                sample == s1,
                self.integrator@ == duc_run(st0, s1, table, f, k as int).integ,
                self.phase as int == duc_run(st0, s1, table, f, k as int).phase,
                forall|i: int| 0 <= i < k ==> #[trigger] output@[i] == cadd(
                    out0[i],
                    duc_emit(st0, s1, table, f, i),
                ),
                forall|i: int| k <= i < cnt ==> output@[i] == out0[i],
            decreases cnt - k,
        {
            let ghost st_prev = DucState { integ: self.integrator@, phase: self.phase as int };
            let ghost integ0 = self.integrator@;
            let sv = self.sinetable[self.phase];
            let e = mul_int_sine_b(self.integrator[0], sv);
            let cur = output[k];
            output[k] = iq_add(cur, e);
            self.phase = self.phase + self.freq;
            if self.phase >= len {
                self.phase = self.phase - len;
            }
            let ghost phase1 = self.phase;
            let mut j2: usize = 0;
            while j2 < n - 1
                invariant
                    j2 <= n - 1,
                    n == self.integrator@.len(),
                    1 <= n,
                    len == self.sinetable@.len(),
                    self.phase == phase1,
                    self.phase < len,
                    self.freq < len,
                    self.sinetable@ == table,
                    self.freq as int == f,
                    integ0.len() == n,
                    sample == s1,
                    cnt == output@.len(),
                    self.comb@ == Seq::new(comb0.len(), |i: int| comb_acc(input, comb0, i)),
                    comb0.len() == n,
                    forall|i: int| 0 <= i < j2 ==> self.integrator@[i] == cadd(
                        integ0[i],
                        integ0[i + 1],
                    ),
                    forall|i: int| j2 <= i < n ==> self.integrator@[i] == integ0[i],
                    forall|i: int| 0 <= i <= k ==> #[trigger] output@[i] == cadd(
                        out0[i],
                        duc_emit(st0, s1, table, f, i),
                    ),
                    forall|i: int| k < i < cnt ==> output@[i] == out0[i],
                decreases n - 1 - j2,
            {
                let v = iq_add(self.integrator[j2], self.integrator[j2 + 1]);
                self.integrator[j2] = v;
                j2 += 1;
            }
            let last = n - 1;
            let v2 = iq_add(self.integrator[last], sample);
            self.integrator[last] = v2;
            proof {
                lemma_phase_step(st_prev.phase, f, len as int);
                let stepped = duc_step(st_prev, s1, table, f);
                assert forall|i: int| 0 <= i < n as int implies self.integrator@[i]
                    == stepped.integ[i] by {
                    if i < n as int - 1 {
                        assert(self.integrator@[i] == cadd(integ0[i], integ0[i + 1]));
                    } else {
                        assert(self.integrator@[i] == cadd(integ0[i], s1));
                    }
                }
                assert(self.integrator@ =~= stepped.integ);
                assert(self.phase as int == stepped.phase);
                let r_prev = duc_run(st0, s1, table, f, k as int);
                assert(st_prev == r_prev);
                assert(duc_run(st0, s1, table, f, k as int + 1) == duc_step(r_prev, s1, table, f));
                assert(duc_run(st0, s1, table, f, k as int + 1) == stepped);
                assert(output@[k as int] == cadd(
                    out0[k as int],
                    duc_emit(st0, s1, table, f, k as int),
                ));
            }
            k += 1;
        }
    }
}

} // verus!
