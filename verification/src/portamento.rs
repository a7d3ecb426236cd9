//! The portamento pitch controller: a control-rate exponential glide from
//! the sounding frequency toward a settable target.
//!
//! Frequencies are integer thousandths of a hertz; the glide amount is an
//! integer number of thousandths in 0..=999. Every 32nd sample the
//! sounding frequency moves toward the target by the fraction
//! `(1000 - amount) / 1000` of the remaining distance — by at least one
//! thousandth of a hertz, so the glide always makes progress — snapping
//! exactly to the target once within a tenth of a hertz; a zero amount
//! snaps immediately at the next control tick. Between control ticks the
//! output holds its last value, so the glide is piecewise constant at
//! 32-sample granularity.

use vstd::prelude::*;

use vstd::arithmetic::div_mod::{lemma_div_is_ordered, lemma_div_multiples_vanish,
    lemma_div_pos_is_pos, lemma_fundamental_div_mod, lemma_mod_bound};
use vstd::arithmetic::mul::lemma_mul_inequality;

verus! {

/// Largest representable frequency, in thousandths of a hertz.
pub const MAX_FREQ_MILLI: i64 = 0xffff_ffff;

/// Distance under which the glide snaps exactly to the target: a tenth of
/// a hertz, in thousandths.
pub const SNAP_MILLI: i64 = 100;

/// How many samples one control tick lasts.
pub const CONTROL_INTERVAL: u64 = 32;

/// The mathematical state of a glide.
pub struct GlideState {
    /// Sounding frequency, thousandths of a hertz.
    pub current: int,
    /// Target frequency, thousandths of a hertz.
    pub target: int,
    /// Glide amount, thousandths.
    pub amount: int,
    /// Samples produced so far.
    pub counter: nat,
}

/// One control-tick move of the sounding frequency: snap to the target
/// when the glide is off or the distance is under the snap threshold,
/// otherwise cover `(1000 - amount)` thousandths of the distance, rounded
/// toward zero but never less than one thousandth of a hertz, so the
/// glide always progresses.
pub open spec fn glide_step(current: int, target: int, amount: int) -> int {
    let diff = target - current;
    if amount == 0 {
        target
    } else if -SNAP_MILLI < diff && diff < SNAP_MILLI {
        target
    } else if diff >= 0 {
        let step = (diff * (1000 - amount)) / 1000;
        if step == 0 {
            current + 1
        } else {
            current + step
        }
    } else {
        let step = ((-diff) * (1000 - amount)) / 1000;
        if step == 0 {
            current - 1
        } else {
            current - step
        }
    }
}

/// The state after producing one sample: the sounding frequency updates
/// only on a control tick, and the sample counter advances.
pub open spec fn glide_next(s: GlideState) -> GlideState {
    let cur = if s.counter % (CONTROL_INTERVAL as nat) == 0 {
        glide_step(s.current, s.target, s.amount)
    } else {
        s.current
    };
    GlideState { current: cur, counter: s.counter + 1, ..s }
}

/// The state after producing `k` samples.
pub open spec fn glide_iter(s: GlideState, k: nat) -> GlideState
    decreases k,
{
    if k == 0 {
        s
    } else {
        glide_next(glide_iter(s, (k - 1) as nat))
    }
}

/// A control-tick move lands between the old frequency and the target,
/// never overshooting in either direction, and never moves away.
pub proof fn lemma_glide_step_between(current: int, target: int, amount: int)
    requires
        0 <= amount <= 999,
    ensures
        current <= target ==> current <= glide_step(current, target, amount) <= target,
        target <= current ==> target <= glide_step(current, target, amount) <= current,
{
    let diff = target - current;
    let f = 1000 - amount;
    if amount == 0 {
    } else if -SNAP_MILLI < diff && diff < SNAP_MILLI {
    } else if diff >= 0 {
        lemma_div_pos_is_pos(diff * f, 1000);
        lemma_mul_inequality(f, 1000, diff);
        lemma_div_is_ordered(diff * f, diff * 1000, 1000);
        lemma_div_multiples_vanish(diff, 1000);
        assert(diff * 1000 == 1000 * diff);
        assert((diff * f) / 1000 <= diff);
        assert(diff >= SNAP_MILLI);
    } else {
        lemma_div_pos_is_pos((-diff) * f, 1000);
        lemma_mul_inequality(f, 1000, -diff);
        lemma_div_is_ordered((-diff) * f, (-diff) * 1000, 1000);
        lemma_div_multiples_vanish(-diff, 1000);
        assert((-diff) * 1000 == 1000 * (-diff));
        assert(((-diff) * f) / 1000 <= -diff);
        assert(-diff >= SNAP_MILLI);
    }
}

/// The glide is monotone and strictly progressing: on every control tick
/// the frequency either snaps exactly to the target — always when the
/// glide is off, and otherwise exactly when the remaining distance is
/// under a tenth of a hertz — or moves strictly toward it without
/// overshooting. Outside the snap window the remaining distance shrinks
/// to at most `amount` thousandths of itself, up to integer rounding, so
/// it falls strictly on every tick and the snap window is always reached.
pub proof fn lemma_glide_monotone(current: int, target: int, amount: int)
    requires
        0 <= amount <= 999,
    ensures
        amount == 0 ==> glide_step(current, target, amount) == target,
        -SNAP_MILLI < target - current < SNAP_MILLI ==> glide_step(current, target, amount)
            == target,
        target >= current ==> target - glide_step(current, target, amount) <= target - current,
        target <= current ==> glide_step(current, target, amount) - target <= current - target,
        target >= current ==> glide_step(current, target, amount) >= current,
        target <= current ==> glide_step(current, target, amount) <= current,
        amount > 0 && target - current >= SNAP_MILLI ==> glide_step(current, target, amount)
            > current && 1000 * (target - glide_step(current, target, amount)) <= amount * (target
            - current) + 999,
        amount > 0 && current - target >= SNAP_MILLI ==> glide_step(current, target, amount)
            < current && 1000 * (glide_step(current, target, amount) - target) <= amount * (current
            - target) + 999,
{
    lemma_glide_step_between(current, target, amount);
    let diff = target - current;
    let f = 1000 - amount;
    if amount > 0 && diff >= SNAP_MILLI {
        let q = (diff * f) / 1000;
        lemma_div_pos_is_pos(diff * f, 1000);
        lemma_fundamental_div_mod(diff * f, 1000);
        lemma_mod_bound(diff * f, 1000);
        assert(1000 * q >= diff * f - 999);
        if q == 0 {
            assert(diff * f <= 999);
            assert(1000 * (diff - 1) <= amount * diff + 999) by (nonlinear_arith)
                requires
                    diff * f <= 999,
                    f == 1000 - amount,
                    diff >= 1,
            ;
        } else {
            assert(1000 * (diff - q) <= amount * diff + 999) by (nonlinear_arith)
                requires
                    1000 * q >= diff * f - 999,
                    f == 1000 - amount,
            ;
        }
    } else if amount > 0 && -diff >= SNAP_MILLI {
        let q = ((-diff) * f) / 1000;
        lemma_div_pos_is_pos((-diff) * f, 1000);
        lemma_fundamental_div_mod((-diff) * f, 1000);
        lemma_mod_bound((-diff) * f, 1000);
        assert(1000 * q >= (-diff) * f - 999);
        if q == 0 {
            assert((-diff) * f <= 999);
            assert(1000 * ((-diff) - 1) <= amount * (-diff) + 999) by (nonlinear_arith)
                requires
                    (-diff) * f <= 999,
                    f == 1000 - amount,
                    -diff >= 1,
            ;
        } else {
            assert(1000 * ((-diff) - q) <= amount * (-diff) + 999) by (nonlinear_arith)
                requires
                    1000 * q >= (-diff) * f - 999,
                    f == 1000 - amount,
            ;
        }
    }
}

/// While samples are produced the sounding frequency stays in the closed
/// interval between where it started and the target: no sample ever
/// overshoots or backtracks out of it.
pub proof fn lemma_glide_iter_between(s: GlideState, k: nat)
    requires
        0 <= s.amount <= 999,
    ensures
        s.current <= s.target ==> s.current <= glide_iter(s, k).current <= s.target,
        s.target <= s.current ==> s.target <= glide_iter(s, k).current <= s.current,
    decreases k,
{
    if k > 0 {
        lemma_glide_iter_between(s, (k - 1) as nat);
        lemma_glide_iter_frame(s, (k - 1) as nat);
        lemma_glide_step_between(glide_iter(s, (k - 1) as nat).current, s.target, s.amount);
    }
}

/// Up to the first control tick the sounding frequency does not move.
proof fn lemma_no_update_until(s: GlideState, j: nat)
    requires
        forall|i: nat| i < j ==> #[trigger] ((s.counter + i) % 32) != 0,
    ensures
        glide_iter(s, j).current == s.current,
        glide_iter(s, j).target == s.target,
        glide_iter(s, j).amount == s.amount,
        glide_iter(s, j).counter == s.counter + j,
    decreases j,
{
    if j > 0 {
        lemma_no_update_until(s, (j - 1) as nat);
        assert(((s.counter + (j - 1) as nat) % 32) != 0);
    }
}

/// The target and amount never change while samples are produced, and the
/// counter counts the samples.
pub proof fn lemma_glide_iter_frame(s: GlideState, k: nat)
    ensures
        glide_iter(s, k).target == s.target,
        glide_iter(s, k).amount == s.amount,
        glide_iter(s, k).counter == s.counter + k,
    decreases k,
{
    if k > 0 {
        lemma_glide_iter_frame(s, (k - 1) as nat);
    }
}

/// With the glide off, the sounding frequency reaches the target within
/// one full control tick: some sample among the next 32 already holds it.
pub proof fn lemma_instant_glide_reaches(s: GlideState)
    requires
        s.amount == 0,
    ensures
        exists|k: nat| k < 32 && #[trigger] glide_iter(s, k + 1).current == s.target,
{
    let k0: nat = if s.counter % 32 == 0 {
        0
    } else {
        (32 - s.counter % 32) as nat
    };
    assert(forall|i: nat| i < k0 ==> #[trigger] ((s.counter + i) % 32) != 0) by {
        assert(forall|i: nat| i < k0 ==> #[trigger] ((s.counter + i) % 32) == s.counter % 32 + i);
    }
    lemma_no_update_until(s, k0);
    let before = glide_iter(s, k0);
    assert(before.counter % 32 == 0);
    assert(glide_iter(s, (k0 + 1) as nat) == glide_next(before));
    assert(glide_next(before).current == s.target);
    assert(k0 < 32 && glide_iter(s, k0 + 1).current == s.target);
}

/// The portamento pitch controller.
pub struct Portamento {
    current: i64,
    target: i64,
    amount: u32,
    counter: u64,
}

impl Portamento {
    /// The mathematical state of this controller.
    pub closed spec fn view(self) -> GlideState {
        GlideState {
            current: self.current as int,
            target: self.target as int,
            amount: self.amount as int,
            counter: self.counter as nat,
        }
    }

    /// Well-formedness: frequencies in range and the amount a number of
    /// thousandths below one.
    pub open spec fn wf(self) -> bool {
        &&& 0 <= self.view().current <= MAX_FREQ_MILLI
        &&& 0 <= self.view().target <= MAX_FREQ_MILLI
        &&& 0 <= self.view().amount <= 999
    }

    /// A controller starting, and aiming, at `start_freq`, with no glide.
    pub fn new(start_freq: u32) -> (r: Portamento)
        ensures
            r.wf(),
            r.view().current == start_freq,
            r.view().target == start_freq,
            r.view().amount == 0,
            r.view().counter == 0,
    {
        Portamento { current: start_freq as i64, target: start_freq as i64, amount: 0, counter: 0 }
    }

    /// Aims the glide at a new target frequency.
    pub fn set_target(&mut self, freq: u32)
        requires
            old(self).wf(),
        ensures
            final(self).wf(),
            final(self).view() == (GlideState { target: freq as int, ..old(self).view() }),
    {
        self.target = freq as i64;
    }

    /// Sets the glide amount, hard-clamped to at most 999 thousandths.
    pub fn set_portamento(&mut self, amount_milli: u32)
        requires
            old(self).wf(),
        ensures
            final(self).wf(),
            final(self).view() == (GlideState {
                amount: if amount_milli <= 999 {
                    amount_milli as int
                } else {
                    999
                },
                ..old(self).view()
            }),
    {
        self.amount = if amount_milli <= 999 {
            amount_milli
        } else {
            999
        };
    }

    /// Sounding frequency, thousandths of a hertz.
    pub fn current_milli(&self) -> (r: i64)
        ensures
            r == self.view().current,
    {
        self.current
    }

    /// Target frequency, thousandths of a hertz.
    pub fn target_milli(&self) -> (r: i64)
        ensures
            r == self.view().target,
    {
        self.target
    }

    /// Glide amount, thousandths.
    pub fn glide_amount_milli(&self) -> (r: u32)
        ensures
            r == self.view().amount,
    {
        self.amount
    }

    /// How many samples this controller has produced.
    pub fn samples_produced(&self) -> (r: u64)
        ensures
            r == self.view().counter,
    {
        self.counter
    }

    /// Produces `n` samples of the sounding frequency, updating it on
    /// every control tick as [`glide_step`] says.
    pub fn process(&mut self, n: usize) -> (out: Vec<i64>)
        requires
            old(self).wf(),
            old(self).view().counter + n <= u64::MAX,
        ensures
            final(self).wf(),
            final(self).view() == glide_iter(old(self).view(), n as nat),
            out@.len() == n,
            forall|k: int|
                0 <= k < n ==> out@[k] == glide_iter(old(self).view(), (k + 1) as nat).current,
    {
        let ghost s0 = self.view();
        let mut out: Vec<i64> = Vec::new();
        let mut i: usize = 0;
        while i < n
            invariant
                i <= n,
                self.wf(),
                s0.counter + n <= u64::MAX,
                0 <= s0.current <= MAX_FREQ_MILLI,
                0 <= s0.target <= MAX_FREQ_MILLI,
                self.view() == glide_iter(s0, i as nat),
                out@.len() == i,
                forall|k: int| 0 <= k < i ==> out@[k] == glide_iter(s0, (k + 1) as nat).current,
            decreases n - i,
        {
            proof {
                lemma_glide_iter_frame(s0, i as nat);
            }
            if self.counter % 32 == 0 {
                let diff = self.target - self.current;
                proof {
                    lemma_glide_step_between(
                        self.view().current,
                        self.view().target,
                        self.view().amount,
                    );
                }
                if self.amount == 0 {
                    self.current = self.target;
                } else if -SNAP_MILLI < diff && diff < SNAP_MILLI {
                    self.current = self.target;
                } else {
                    let factor = (1000 - self.amount) as i64;
                    if diff >= 0 {
                        let step = (diff * factor) / 1000;
                        self.current = self.current + if step == 0 {
                            1
                        } else {
                            step
                        };
                    } else {
                        let step = ((-diff) * factor) / 1000;
                        self.current = self.current - if step == 0 {
                            1
                        } else {
                            step
                        };
                    }
                }
            }
            out.push(self.current);
            self.counter = self.counter + 1;
            proof {
                assert(self.view() == glide_next(glide_iter(s0, i as nat)));
                assert(glide_iter(s0, (i + 1) as nat) == glide_next(glide_iter(s0, i as nat)));
            }
            i = i + 1;
        }
        out
    }
}

} // verus!
