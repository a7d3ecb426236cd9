//! A lightweight low-frequency oscillator: a phase accumulator with four
//! shapes and an output range remap.
//!
//! The oscillator runs entirely on integers. The phase lives in a 32-bit
//! turn (a full cycle is 2^32 units) and advances by
//! `frequency / sample_rate` of a turn per sample. Samples are produced on
//! a scale where 65536 stands for one: the shaped value is folded into
//! -65536..65536, normalized to 0..65536, and mapped linearly into the
//! configured `[min, max]` window, so every produced sample lies within
//! that window. The sine shape is a parabolic approximation
//! `t * (3 - t * t) / 2` of the half-folded ramp rather than a
//! trigonometric call.

use vstd::prelude::*;

use vstd::arithmetic::div_mod::{lemma_div_is_ordered, lemma_div_is_ordered_by_denominator,
    lemma_div_multiples_vanish, lemma_div_pos_is_pos};
use vstd::arithmetic::mul::lemma_mul_inequality;

use crate::protocol::LfoWaveform;

verus! {

/// One full cycle of phase.
pub const PHASE_TURN: u64 = 0x1_0000_0000;

/// The sample value standing for one.
pub const AMP_ONE: i64 = 65536;

/// Largest representable oscillation frequency, in thousandths of a hertz.
pub const MAX_LFO_FREQ_MILLI: u32 = 1_000_000_000;

/// Largest magnitude the range bounds may take.
pub const MAX_RANGE: i64 = 0x100_0000_0000;

/// The shape of the oscillation.
#[derive(Clone, Copy, Debug, PartialEq, Eq, Structural)]
pub enum FastLfoWaveform {
    Sine,
    Triangle,
    Saw,
    Square,
}

/// The oscillator shape each preset shape maps to.
pub open spec fn fast_shape_of(w: LfoWaveform) -> FastLfoWaveform {
    match w {
        LfoWaveform::Sine => FastLfoWaveform::Sine,
        LfoWaveform::Triangle => FastLfoWaveform::Triangle,
        LfoWaveform::Saw => FastLfoWaveform::Saw,
        LfoWaveform::Square => FastLfoWaveform::Square,
    }
}

/// Maps a preset's oscillator shape to the engine's.
pub fn map_lfo_waveform(w: LfoWaveform) -> (r: FastLfoWaveform)
    ensures
        r == fast_shape_of(w),
{
    match w {
        LfoWaveform::Sine => FastLfoWaveform::Sine,
        LfoWaveform::Triangle => FastLfoWaveform::Triangle,
        LfoWaveform::Saw => FastLfoWaveform::Saw,
        LfoWaveform::Square => FastLfoWaveform::Square,
    }
}

/// How far the phase advances per sample: the frequency's share of a turn.
pub open spec fn phase_increment(freq_milli: int, sample_rate: int) -> int
    recommends
        sample_rate >= 1,
{
    (freq_milli * 0x1_0000_0000) / (sample_rate * 1000)
}

/// The phase after `k` samples, wrapping every turn.
pub open spec fn phase_after(phase: int, inc: int, k: nat) -> int
    decreases k,
{
    if k == 0 {
        phase
    } else {
        (phase_after(phase, inc, (k - 1) as nat) + inc) % 0x1_0000_0000
    }
}

/// The phase mapped to the sample scale: 0..65536 across one turn.
pub open spec fn norm_phase(phase: int) -> int {
    (phase * 65536) / 0x1_0000_0000
}

/// The shaped value of a phase on the sample scale, in -65536..65536: a
/// ramp for the saw, a step for the square, a folded ramp for the
/// triangle, and the parabolic sine approximation.
pub open spec fn raw_sample(w: FastLfoWaveform, phase: int) -> int {
    let np = norm_phase(phase);
    let t = 2 * np - 65536;
    let folded = if t < 0 {
        -t
    } else {
        t
    };
    match w {
        FastLfoWaveform::Saw => t,
        FastLfoWaveform::Square => if np < 32768 {
            65536
        } else {
            -65536
        },
        FastLfoWaveform::Triangle => 2 * folded - 65536,
        FastLfoWaveform::Sine => {
            let u = 2 * folded - 65536;
            let k = 3 * 65536 * 65536 - u * u;
            let d = (2 * 65536 * 65536) as int;
            if u >= 0 {
                (u * k) / d
            } else {
                -(((-u) * k) / d)
            }
        },
    }
}

/// The shaped value normalized to 0..65536 and mapped into `[min, max]`.
pub open spec fn scaled_sample(w: FastLfoWaveform, phase: int, min: int, max: int) -> int {
    min + (((raw_sample(w, phase) + 65536) / 2) * (max - min)) / 65536
}

/// On one side of the fold, the parabolic sine shaper stays within one:
/// `v * (3 - v * v)` never exceeds `2` on the unit scale.
proof fn lemma_parabola_bound(v: int)
    requires
        0 <= v <= 65536,
    ensures
        0 <= v * (3 * 65536 * 65536 - v * v),
        v * (3 * 65536 * 65536 - v * v) <= 2 * 65536 * 65536 * 65536,
{
    let s = 65536 as int;
    assert(0 <= v * (3 * s * s - v * v) && 2 * s * s * s - v * (3 * s * s - v * v) == (s - v) * (s
        - v) * (v + 2 * s) && (s - v) * (s - v) * (v + 2 * s) >= 0) by (nonlinear_arith)
        requires
            0 <= v <= s,
            s == 65536,
    ;
}

/// Every shaped value lies within -65536..65536.
proof fn lemma_raw_sample_bounds(w: FastLfoWaveform, phase: int)
    requires
        0 <= phase < 0x1_0000_0000,
    ensures
        -65536 <= raw_sample(w, phase) <= 65536,
{
    let np = norm_phase(phase);
    lemma_div_pos_is_pos(phase * 65536, 0x1_0000_0000);
    lemma_mul_inequality(phase, 0xffff_ffff, 65536);
    lemma_div_is_ordered(phase * 65536, (0xffff_ffff * 65536) as int, 0x1_0000_0000);
    assert(0xffff_ffff * 65536 / 0x1_0000_0000 == 65535);
    assert(0 <= np <= 65535);
    let t = 2 * np - 65536;
    let folded = if t < 0 {
        -t
    } else {
        t
    };
    assert(0 <= folded <= 65536);
    match w {
        FastLfoWaveform::Saw => {},
        FastLfoWaveform::Square => {},
        FastLfoWaveform::Triangle => {},
        FastLfoWaveform::Sine => {
            let s = 65536 as int;
            let u = 2 * folded - s;
            assert(-s <= u <= s);
            if u >= 0 {
                lemma_parabola_bound(u);
                lemma_div_pos_is_pos(u * (3 * s * s - u * u), 2 * s * s);
                lemma_div_is_ordered(u * (3 * s * s - u * u), 2 * s * s * s, 2 * s * s);
                lemma_div_multiples_vanish(s, 2 * s * s);
                assert(2 * s * s * s == (2 * s * s) * s);
                assert((u * (3 * s * s - u * u)) / (2 * s * s) <= s);
            } else {
                assert((-u) * (-u) == u * u) by (nonlinear_arith);
                lemma_parabola_bound(-u);
                lemma_div_pos_is_pos((-u) * (3 * s * s - u * u), 2 * s * s);
                lemma_div_is_ordered((-u) * (3 * s * s - u * u), 2 * s * s * s, 2 * s * s);
                lemma_div_multiples_vanish(s, 2 * s * s);
                assert(2 * s * s * s == (2 * s * s) * s);
                assert(((-u) * (3 * s * s - u * u)) / (2 * s * s) <= s);
            }
        },
    }
}

/// Every scaled sample lies within the configured window.
proof fn lemma_scaled_sample_bounds(w: FastLfoWaveform, phase: int, min: int, max: int)
    requires
        0 <= phase < 0x1_0000_0000,
        min <= max,
    ensures
        min <= scaled_sample(w, phase, min, max) <= max,
{
    lemma_raw_sample_bounds(w, phase);
    let raw = raw_sample(w, phase);
    let norm = (raw + 65536) / 2;
    lemma_div_pos_is_pos(raw + 65536, 2);
    lemma_div_is_ordered(raw + 65536, (2 * 65536) as int, 2);
    lemma_div_multiples_vanish(65536, 2);
    assert(2 * 65536 == 2 * 65536);
    assert(0 <= norm <= 65536);
    let range = max - min;
    lemma_mul_inequality(norm, 65536, range);
    lemma_div_pos_is_pos(norm * range, 65536);
    lemma_div_is_ordered(norm * range, 65536 * range, 65536);
    lemma_div_multiples_vanish(range, 65536);
    assert(65536 * range == 65536 * range);
    assert(0 <= (norm * range) / 65536 <= range);
}

/// The low-frequency oscillator.
pub struct FastLfo {
    frequency: u32,
    waveform: FastLfoWaveform,
    min: i64,
    max: i64,
    phase: u64,
    sample_rate: u32,
}

impl FastLfo {
    /// Well-formedness: frequency and range in representable bounds, an
    /// ordered window, a positive sample rate and a phase inside one turn.
    pub open spec fn wf(self) -> bool {
        &&& self.freq_milli() <= MAX_LFO_FREQ_MILLI
        &&& -MAX_RANGE <= self.range_min() <= self.range_max() <= MAX_RANGE
        &&& self.cur_phase() < PHASE_TURN
        &&& self.rate() >= 1
    }

    /// Oscillation frequency, thousandths of a hertz.
    pub closed spec fn freq_milli(self) -> u32 {
        self.frequency
    }

    /// Configured shape.
    pub closed spec fn shape(self) -> FastLfoWaveform {
        self.waveform
    }

    /// Lower edge of the output window.
    pub closed spec fn range_min(self) -> i64 {
        self.min
    }

    /// Upper edge of the output window.
    pub closed spec fn range_max(self) -> i64 {
        self.max
    }

    /// Current phase, in units of a 2^32 turn.
    pub closed spec fn cur_phase(self) -> u64 {
        self.phase
    }

    /// Sample rate, hertz.
    pub closed spec fn rate(self) -> u32 {
        self.sample_rate
    }

    /// A fresh oscillator with the window at -1..1 of the sample scale and
    /// the phase at the start of a cycle.
    pub fn new(frequency: u32, waveform: FastLfoWaveform, sample_rate: u32) -> (r: FastLfo)
        requires
            frequency <= MAX_LFO_FREQ_MILLI,
            sample_rate >= 1,
        ensures
            r.wf(),
            r.freq_milli() == frequency,
            r.shape() == waveform,
            r.range_min() == -AMP_ONE,
            r.range_max() == AMP_ONE,
            r.cur_phase() == 0,
            r.rate() == sample_rate,
    {
        FastLfo { frequency, waveform, min: -AMP_ONE, max: AMP_ONE, phase: 0, sample_rate }
    }

    /// Reconfigures the output window.
    pub fn set_range(&mut self, min: i64, max: i64)
        requires
            old(self).wf(),
            -MAX_RANGE <= min <= max <= MAX_RANGE,
        ensures
            final(self).wf(),
            final(self).range_min() == min,
            final(self).range_max() == max,
            final(self).freq_milli() == old(self).freq_milli(),
            final(self).shape() == old(self).shape(),
            final(self).cur_phase() == old(self).cur_phase(),
            final(self).rate() == old(self).rate(),
    {
        self.min = min;
        self.max = max;
    }

    /// Oscillation frequency, thousandths of a hertz.
    pub fn get_frequency(&self) -> (r: u32)
        ensures
            r == self.freq_milli(),
    {
        self.frequency
    }

    /// Configured shape.
    pub fn get_waveform(&self) -> (r: FastLfoWaveform)
        ensures
            r == self.shape(),
    {
        self.waveform
    }

    /// Lower edge of the output window.
    pub fn get_min(&self) -> (r: i64)
        ensures
            r == self.range_min(),
    {
        self.min
    }

    /// Upper edge of the output window.
    pub fn get_max(&self) -> (r: i64)
        ensures
            r == self.range_max(),
    {
        self.max
    }

    /// Takes a new sample rate; it shapes the next processed block, with
    /// no phase correction.
    pub fn set_sample_rate(&mut self, sample_rate: u32)
        requires
            old(self).wf(),
            sample_rate >= 1,
        ensures
            final(self).wf(),
            final(self).rate() == sample_rate,
            final(self).freq_milli() == old(self).freq_milli(),
            final(self).shape() == old(self).shape(),
            final(self).range_min() == old(self).range_min(),
            final(self).range_max() == old(self).range_max(),
            final(self).cur_phase() == old(self).cur_phase(),
    {
        self.sample_rate = sample_rate;
    }

    /// Rewinds the phase to the start of a cycle.
    pub fn reset(&mut self)
        requires
            old(self).wf(),
        ensures
            final(self).wf(),
            final(self).cur_phase() == 0,
            final(self).freq_milli() == old(self).freq_milli(),
            final(self).shape() == old(self).shape(),
            final(self).range_min() == old(self).range_min(),
            final(self).range_max() == old(self).range_max(),
            final(self).rate() == old(self).rate(),
    {
        self.phase = 0;
    }

    /// Produces `n` samples. Every sample is the shaped, remapped value of
    /// the advanced phase, and every sample lies inside the configured
    /// window.
    pub fn process(&mut self, n: usize) -> (out: Vec<i64>)
        requires
            old(self).wf(),
        ensures
            final(self).wf(),
            out@.len() == n,
            ({
                let inc = phase_increment(old(self).freq_milli() as int, old(self).rate() as int);
                &&& final(self).cur_phase() == phase_after(old(self).cur_phase() as int, inc, n as nat)
                &&& forall|k: int|
                    0 <= k < n ==> out@[k] == scaled_sample(
                        old(self).shape(),
                        phase_after(old(self).cur_phase() as int, inc, (k + 1) as nat),
                        old(self).range_min() as int,
                        old(self).range_max() as int,
                    )
            }),
            forall|k: int|
                0 <= k < n
                    ==> final(self).range_min() <= #[trigger] out@[k] <= final(self).range_max(),
            final(self).freq_milli() == old(self).freq_milli(),
            final(self).shape() == old(self).shape(),
            final(self).range_min() == old(self).range_min(),
            final(self).range_max() == old(self).range_max(),
            final(self).rate() == old(self).rate(),
    {
        let ghost p0 = self.phase as int;
        let ghost ghost_inc = phase_increment(self.frequency as int, self.sample_rate as int);

        let inc: u64 = ((self.frequency as u64) * PHASE_TURN) / ((self.sample_rate as u64) * 1000);
        proof {
            lemma_div_pos_is_pos((self.frequency as u64 * PHASE_TURN) as int, (self.sample_rate
                as u64 * 1000) as int);
            lemma_div_is_ordered_by_denominator(
                (self.frequency as u64 * PHASE_TURN) as int,
                1000,
                (self.sample_rate as u64 * 1000) as int,
            );
            lemma_mul_inequality(self.sample_rate as int, self.sample_rate as int, 1000);
            assert(inc == ghost_inc);
            assert(inc <= (self.frequency as u64 * PHASE_TURN) as int / 1000);
            lemma_div_is_ordered(
                (self.frequency as u64 * PHASE_TURN) as int,
                (1_000_000_000 * 0x1_0000_0000) as int,
                1000,
            );
            assert(inc <= (1_000_000_000 * 0x1_0000_0000) as int / 1000);
        }

        let mut out: Vec<i64> = Vec::new();
        let mut i: usize = 0;
        while i < n
            invariant
                i <= n,
                self.wf(),
                inc == ghost_inc,
                inc <= 0x10_0000_0000_0000_00,
                self.frequency == old(self).freq_milli(),
                self.waveform == old(self).shape(),
                self.min == old(self).range_min(),
                self.max == old(self).range_max(),
                self.sample_rate == old(self).rate(),
                self.phase as int == phase_after(p0, ghost_inc, i as nat),
                p0 == old(self).cur_phase() as int,
                out@.len() == i,
                forall|k: int|
                    0 <= k < i ==> out@[k] == scaled_sample(
                        old(self).shape(),
                        phase_after(p0, ghost_inc, (k + 1) as nat),
                        old(self).range_min() as int,
                        old(self).range_max() as int,
                    ),
                forall|k: int| 0 <= k < i ==> self.min <= #[trigger] out@[k] <= self.max,
            decreases n - i,
        {
            self.phase = (self.phase + inc) % PHASE_TURN;
            proof {
                assert(self.phase as int == phase_after(p0, ghost_inc, (i + 1) as nat));
            }

            let np = ((self.phase * 65536) / PHASE_TURN) as i64;
            proof {
                lemma_div_pos_is_pos((self.phase * 65536) as int, PHASE_TURN as int);
                lemma_mul_inequality(self.phase as int, 0xffff_ffff, 65536);
                lemma_div_is_ordered(
                    (self.phase * 65536) as int,
                    (0xffff_ffff * 65536) as int,
                    PHASE_TURN as int,
                );
                assert(np == norm_phase(self.phase as int));
                assert(0 <= np <= 65535);
            }
            let t: i64 = 2 * np - 65536;
            let folded: i64 = if t < 0 {
                -t
            } else {
                t
            };
            let raw: i64 = match self.waveform {
                FastLfoWaveform::Saw => t,
                FastLfoWaveform::Square => if np < 32768 {
                    65536
                } else {
                    -65536
                },
                FastLfoWaveform::Triangle => 2 * folded - 65536,
                FastLfoWaveform::Sine => {
                    let u: i64 = 2 * folded - 65536;
                    proof {
                        assert(0 <= (u as int) * (u as int) <= 65536 * 65536) by (nonlinear_arith)
                            requires
                                -65536 <= u as int <= 65536,
                        ;
                        if u >= 0 {
                            lemma_parabola_bound(u as int);
                        } else {
                            assert((-u as int) * (-u as int) == (u as int) * (u as int))
                                by (nonlinear_arith);
                            lemma_parabola_bound(-u as int);
                        }
                    }
                    let k: i64 = 3 * 65536 * 65536 - u * u;
                    if u >= 0 {
                        (u * k) / (2 * 65536 * 65536)
                    } else {
                        -(((-u) * k) / (2 * 65536 * 65536))
                    }
                },
            };
            proof {
                lemma_raw_sample_bounds(self.waveform, self.phase as int);
                assert(raw == raw_sample(self.waveform, self.phase as int));
            }
            let norm: i64 = (raw + 65536) / 2;
            let range: i64 = self.max - self.min;
            proof {
                lemma_div_pos_is_pos(raw as int + 65536, 2);
                lemma_div_is_ordered(raw as int + 65536, (2 * 65536) as int, 2);
                lemma_div_multiples_vanish(65536, 2);
                assert(0 <= norm as int <= 65536);
                assert(0 <= (norm as int) * (range as int) <= 65536 * 0x200_0000_0000)
                    by (nonlinear_arith)
                    requires
                        0 <= norm as int <= 65536,
                        0 <= range as int <= 0x200_0000_0000,
                ;
                lemma_mul_inequality(norm as int, 65536, range as int);
                lemma_div_pos_is_pos((norm as int) * (range as int), 65536);
                lemma_div_is_ordered(
                    (norm as int) * (range as int),
                    65536 * (range as int),
                    65536,
                );
                lemma_div_multiples_vanish(range as int, 65536);
            }
            let sample: i64 = self.min + (norm * range) / 65536;
            proof {
                lemma_scaled_sample_bounds(
                    self.waveform,
                    self.phase as int,
                    self.min as int,
                    self.max as int,
                );
                assert(sample == scaled_sample(
                    self.waveform,
                    self.phase as int,
                    self.min as int,
                    self.max as int,
                ));
            }
            out.push(sample);
            i = i + 1;
        }
        out
    }
}

} // verus!
