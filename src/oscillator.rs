//! A wavetable oscillator with a fixed-point phase accumulator.
//!
//! The phase is counted in units of `1 / PHASE_ONE` of a table slot, so a
//! phase `p` sits at table position `p / PHASE_ONE` with fractional part
//! `(p % PHASE_ONE) / PHASE_ONE`. Frequencies are given in millihertz.

use vstd::arithmetic::div_mod::{
    lemma_add_mod_noop, lemma_fundamental_div_mod, lemma_fundamental_div_mod_converse, lemma_small_mod,
};
use vstd::prelude::*;

verus! {

/// One table slot, in phase units.
pub const PHASE_ONE: u64 = 65536;

/// The longest table an oscillator accepts.
pub const MAX_TABLE_LEN: u64 = 4294967296;

/// Why an oscillator could not be built.
#[derive(Debug, Clone, Copy, PartialEq, Eq, Structural)]
pub enum OscillatorError {
    /// The table holds no sample.
    EmptyTable,
    /// The table is longer than `MAX_TABLE_LEN`.
    TableTooLong,
    /// The sample rate is zero.
    ZeroSampleRate,
}

/// The abstract state of an oscillator.
pub struct OscillatorState {
    pub sample_rate: nat,
    pub table: Seq<i16>,
    /// Current phase, in phase units.
    pub index: nat,
    /// Phase advance per pulled sample, reduced modulo the table's period.
    pub step: nat,
}

impl OscillatorState {
    /// The length of one cycle of the table, in phase units.
    pub open spec fn period(self) -> int {
        self.table.len() * PHASE_ONE
    }

    /// The sample rate is positive, the table is non-empty and within
    /// bounds, and the phase and the step lie within one period.
    pub open spec fn wf(self) -> bool {
        &&& self.sample_rate > 0
        &&& 1 <= self.table.len() <= MAX_TABLE_LEN
        &&& self.index < self.period()
        &&& self.step < self.period()
    }
}

/// The linearly interpolated amplitude of `table` at phase `index`: the two
/// neighbouring entries (the last one wrapping to the first) weighted by the
/// fractional position between them, rounded down.
pub open spec fn lerp_at(table: Seq<i16>, index: int) -> int {
    let i0 = index / PHASE_ONE as int;
    let i1 = (i0 + 1) % table.len() as int;
    let w1 = index % PHASE_ONE as int;
    let w0 = PHASE_ONE - w1;
    (w0 * table[i0] + w1 * table[i1]) / PHASE_ONE as int
}

/// The phase step for a frequency of `millihertz` on a table of `len`
/// samples played at `rate` samples per second:
/// `frequency * len / rate` table slots, rounded down to a whole phase unit
/// and wrapped into one period. A negative frequency wraps to the step that
/// walks the table backwards.
pub open spec fn step_for(millihertz: int, len: int, rate: int) -> int {
    (millihertz * len * PHASE_ONE / (rate * 1000)) % (len * PHASE_ONE)
}

/// The phase after `n` pulls from state `s`.
pub open spec fn phase_after(s: OscillatorState, n: nat) -> int {
    (s.index as int + n * s.step) % s.period()
}

/// The sample that the pull numbered `n` (from zero) returns from state `s`.
pub open spec fn sample_after(s: OscillatorState, n: nat) -> int {
    lerp_at(s.table, phase_after(s, n))
}

/// A sample source that reads a wavetable cyclically at a set frequency.
pub struct WaveTableOscillator {
    sample_rate: u32,
    wave_table: Vec<i16>,
    index: u64,
    index_increment: u64,
}

impl View for WaveTableOscillator {
    type V = OscillatorState;

    closed spec fn view(&self) -> OscillatorState {
        OscillatorState {
            sample_rate: self.sample_rate as nat,
            table: self.wave_table@,
            index: self.index as nat,
            step: self.index_increment as nat,
        }
    }
}

/// Pulling one sample moves the phase from where `n` pulls left it to where
/// `n + 1` pulls leave it; before any pull it is the current phase.
pub proof fn pulls_follow_phase(s: OscillatorState, n: nat)
    requires
        s.wf(),
    ensures
        phase_after(s, 0) == s.index,
        phase_after(s, n + 1) == (phase_after(s, n) + s.step) % s.period(),
        0 <= phase_after(s, n) < s.period(),
{
    let p = s.period();
    lemma_small_mod(s.index, p as nat);
    lemma_small_mod(s.step, p as nat);
    let x = s.index as int + n * s.step;
    assert((n + 1) * s.step == n * s.step + s.step) by (nonlinear_arith);
    lemma_add_mod_noop(x, s.step as int, p);
}

/// Phase units at a whole table position `j` read the table entry `j`
/// exactly.
proof fn lemma_lerp_on_slot(table: Seq<i16>, j: int)
    requires
        0 <= j < table.len(),
    ensures
        lerp_at(table, j * PHASE_ONE) == table[j],
{
    let x = j * PHASE_ONE;
    lemma_fundamental_div_mod_converse(x, PHASE_ONE as int, j, 0);
    assert((PHASE_ONE * table[j] + 0 * table[(j + 1) % table.len() as int]) / PHASE_ONE as int
        == table[j]);
}

/// With the phase and the step both on whole table positions, every pull
/// reads a table entry with no interpolation: pull `n` returns the entry
/// `n` steps past the starting one, wrapping around the table.
pub proof fn whole_steps_read_exact_entries(s: OscillatorState, n: nat)
    requires
        s.wf(),
        s.index as int % PHASE_ONE as int == 0,
        s.step as int % PHASE_ONE as int == 0,
    ensures
        sample_after(s, n) == s.table[(s.index as int / PHASE_ONE as int + n * (s.step as int
            / PHASE_ONE as int)) % s.table.len() as int],
{
    let len = s.table.len() as int;
    let one = PHASE_ONE as int;
    let i = s.index as int / one;
    let k = s.step as int / one;
    let x = i + n * k;
    assert(s.index == i * one);
    assert(s.step == k * one);
    assert(n * (k * one) == (n * k) * one) by (nonlinear_arith);
    assert(s.index as int + n * s.step == x * one);
    let q = x / len;
    let r = x % len;
    lemma_fundamental_div_mod(x, len);
    assert(x == q * len + r);
    assert(x * one == q * (len * one) + r * one) by (nonlinear_arith)
        requires
            x == q * len + r,
    ;
    assert(0 <= r * one < len * one) by (nonlinear_arith)
        requires
            0 <= r < len,
            one > 0,
    ;
    lemma_fundamental_div_mod_converse(x * one, len * one, q, r * one);
    assert(phase_after(s, n) == r * one);
    lemma_lerp_on_slot(s.table, r);
}

/// At frequency zero the phase never moves: every pull returns the same
/// sample as the first.
pub proof fn zero_frequency_freezes(s: OscillatorState, n: nat)
    requires
        s.wf(),
        s.step == step_for(0, s.table.len() as int, s.sample_rate as int),
    ensures
        phase_after(s, n) == s.index,
        sample_after(s, n) == sample_after(s, 0),
{
    let p = s.period();
    let d = s.sample_rate as int * 1000;
    assert(0 * s.table.len() * PHASE_ONE == 0);
    lemma_fundamental_div_mod_converse(0, d, 0, 0);
    lemma_fundamental_div_mod_converse(0, p, 0, 0);
    assert(s.step == 0);
    assert(n * 0 == 0) by (nonlinear_arith);
    lemma_small_mod(s.index, p as nat);
}

/// Starting at phase zero with a step of one table slot, pull `n` returns
/// table entry `n` modulo the length, so each run of `len` pulls replays the
/// table in order.
pub proof fn unit_step_replays_table(s: OscillatorState, n: nat)
    requires
        s.wf(),
        s.index == 0,
        s.step == PHASE_ONE,
    ensures
        sample_after(s, n) == s.table[n as int % s.table.len() as int],
        sample_after(s, (n + s.table.len()) as nat) == sample_after(s, n),
{
    let len = s.table.len() as int;
    whole_steps_read_exact_entries(s, n);
    whole_steps_read_exact_entries(s, (n + len) as nat);
    assert(n * 1 == n) by (nonlinear_arith);
    assert((n + len) * 1 == n + len) by (nonlinear_arith);
    lemma_add_mod_noop(n as int, len, len);
    assert(len % len == 0) by {
        lemma_fundamental_div_mod_converse(len, len, 1, 0);
    }
    lemma_small_mod((n as int % len) as nat, len as nat);
}

/// Halfway between the first two entries the interpolation returns their
/// mean, rounded down.
pub proof fn midpoint_is_mean(table: Seq<i16>)
    requires
        table.len() >= 2,
    ensures
        lerp_at(table, PHASE_ONE as int / 2) == (table[0] + table[1]) / 2,
{
    let h = PHASE_ONE as int / 2;
    assert(h == 32768);
    assert(h / PHASE_ONE as int == 0);
    assert(h % PHASE_ONE as int == h);
    lemma_small_mod(1, table.len());
    let x = table[0] + table[1];
    let q = x / 2;
    let r = x % 2;
    assert(x == q * 2 + r);
    assert(h * table[0] + h * table[1] == q * PHASE_ONE + r * h);
    lemma_fundamental_div_mod_converse(h * table[0] + h * table[1], PHASE_ONE as int, q, r * h);
}

/// A convex combination of two amplitudes lies between them.
proof fn lemma_blend_bounds(w0: int, w1: int, a: int, b: int)
    requires
        0 <= w0,
        0 <= w1,
        w0 + w1 == PHASE_ONE,
        -32768 <= a <= 32767,
        -32768 <= b <= 32767,
    ensures
        -32768 * PHASE_ONE <= w0 * a <= 32768 * PHASE_ONE,
        -32768 * PHASE_ONE <= w1 * b <= 32768 * PHASE_ONE,
        -32768 * PHASE_ONE <= w0 * a + w1 * b <= 32767 * PHASE_ONE,
{
    assert(-32768 * PHASE_ONE <= w0 * a <= 32768 * PHASE_ONE) by (nonlinear_arith)
        requires
            0 <= w0 <= 65536,
            -32768 <= a <= 32767,
    ;
    assert(-32768 * PHASE_ONE <= w1 * b <= 32768 * PHASE_ONE) by (nonlinear_arith)
        requires
            0 <= w1 <= 65536,
            -32768 <= b <= 32767,
    ;
    assert(-32768 * PHASE_ONE <= w0 * a + w1 * b <= 32767 * PHASE_ONE) by (nonlinear_arith)
        requires
            0 <= w0,
            0 <= w1,
            w0 + w1 == 65536,
            -32768 <= a <= 32767,
            -32768 <= b <= 32767,
    ;
}

impl WaveTableOscillator {
    /// Builds an oscillator over `wave_table` at `sample_rate` samples per
    /// second, at phase zero and with no frequency set.
    pub fn new(sample_rate: u32, wave_table: Vec<i16>) -> (r: Result<Self, OscillatorError>)
        ensures
            wave_table@.len() == 0 ==> r == Err::<Self, _>(OscillatorError::EmptyTable),
            wave_table@.len() > MAX_TABLE_LEN ==> r == Err::<Self, _>(
                OscillatorError::TableTooLong,
            ),
            1 <= wave_table@.len() <= MAX_TABLE_LEN && sample_rate == 0 ==> r == Err::<Self, _>(
                OscillatorError::ZeroSampleRate,
            ),
            1 <= wave_table@.len() <= MAX_TABLE_LEN && sample_rate > 0 ==> r is Ok,
            r matches Ok(o) ==> {
                &&& o.wf()
                &&& o@.sample_rate == sample_rate
                &&& o@.table == wave_table@
                &&& o@.index == 0
                &&& o@.step == 0
            },
    {
        if wave_table.len() == 0 {
            return Err(OscillatorError::EmptyTable);
        }
        if wave_table.len() as u64 > MAX_TABLE_LEN {
            return Err(OscillatorError::TableTooLong);
        }
        if sample_rate == 0 {
            return Err(OscillatorError::ZeroSampleRate);
        }
        Ok(WaveTableOscillator { sample_rate, wave_table, index: 0, index_increment: 0 })
    }

    /// The oscillator's state is well formed.
    pub open spec fn wf(&self) -> bool {
        self@.wf()
    }

    /// The length of one cycle of the table, in phase units.
    fn period(&self) -> (r: u64)
        requires
            self.wf(),
        ensures
            r == self@.period(),
    {
        self.wave_table.len() as u64 * PHASE_ONE
    }

    /// Sets the frequency, in millihertz, at which the table is played from
    /// the next pulled sample on. Zero freezes the phase; a negative
    /// frequency plays the table backwards.
    pub fn set_frequency(&mut self, millihertz: i64)
        requires
            old(self).wf(),
        ensures
            final(self).wf(),
            final(self)@ == (OscillatorState {
                step: step_for(
                    millihertz as int,
                    old(self)@.table.len() as int,
                    old(self)@.sample_rate as int,
                ) as nat,
                ..old(self)@
            }),
    {
        let len: i128 = self.wave_table.len() as i128;
        let f: i128 = millihertz as i128;
        assert(-0x8000_0000_0000_0000 * 0x1_0000_0000 <= f * len <= 0x8000_0000_0000_0000
            * 0x1_0000_0000) by (nonlinear_arith)
            requires
                -0x8000_0000_0000_0000 <= f <= 0x8000_0000_0000_0000,
                1 <= len <= 0x1_0000_0000,
        ;
        let scaled: i128 = f * len * (PHASE_ONE as i128);
        let rate: i128 = self.sample_rate as i128 * 1000;
        let period: i128 = self.period() as i128;
        assert(-0x8000_0000_0000_0000_0000_0000_0000 <= scaled / rate
            <= 0x8000_0000_0000_0000_0000_0000_0000) by (nonlinear_arith)
            requires
                -0x8000_0000_0000_0000_0000_0000_0000 <= scaled
                    <= 0x8000_0000_0000_0000_0000_0000_0000,
                rate >= 1,
        ;
        let slots: i128 = match scaled.checked_div_euclid(rate) {
            Some(q) => q,
            None => 0,
        };
        let step: i128 = match slots.checked_rem_euclid(period) {
            Some(m) => m,
            None => 0,
        };
        self.index_increment = step as u64;
    }

    /// The interpolated amplitude at the current phase.
    pub fn lerp(&self) -> (r: i16)
        requires
            self.wf(),
        ensures
            r == lerp_at(self@.table, self@.index as int),
    {
        let len: usize = self.wave_table.len();
        let truncated_index: usize = (self.index / PHASE_ONE) as usize;
        let next_index: usize = (truncated_index + 1) % len;
        let next_weight: i64 = (self.index % PHASE_ONE) as i64;
        let truncated_weight: i64 = PHASE_ONE as i64 - next_weight;
        let a: i64 = self.wave_table[truncated_index] as i64;
        let b: i64 = self.wave_table[next_index] as i64;
        proof {
            lemma_blend_bounds(truncated_weight as int, next_weight as int, a as int, b as int);
        }
        let blend: i64 = truncated_weight * a + next_weight * b;
        let q: i64 = match blend.checked_div_euclid(PHASE_ONE as i64) {
            Some(q) => q,
            None => 0,
        };
        q as i16
    }

    /// Returns the interpolated amplitude at the current phase, then
    /// advances the phase by one step, wrapped into one period.
    pub fn get_sample(&mut self) -> (r: i16)
        requires
            old(self).wf(),
        ensures
            final(self).wf(),
            r == lerp_at(old(self)@.table, old(self)@.index as int),
            final(self)@ == (OscillatorState {
                index: ((old(self)@.index as int + old(self)@.step) % old(self)@.period()) as nat,
                ..old(self)@
            }),
    {
        let sample: i16 = self.lerp();
        let period: u64 = self.period();
        self.index = (self.index + self.index_increment) % period;
        sample
    }

    /// The sample rate given at construction.
    pub fn sample_rate(&self) -> (r: u32)
        ensures
            r == self@.sample_rate,
    {
        self.sample_rate
    }

    /// The number of channels of the stream: always one.
    pub fn channels(&self) -> (r: u16)
        ensures
            r == 1,
    {
        1
    }

    /// The number of samples after which the stream's format may change:
    /// never, so there is none.
    pub fn current_frame_len(&self) -> (r: Option<usize>)
        ensures
            r is None,
    {
        None
    }

    /// The current phase, in phase units.
    pub fn index(&self) -> (r: u64)
        ensures
            r == self@.index,
    {
        self.index
    }

    /// The phase advance per pulled sample, in phase units.
    pub fn index_increment(&self) -> (r: u64)
        ensures
            r == self@.step,
    {
        self.index_increment
    }
}

} // verus!
