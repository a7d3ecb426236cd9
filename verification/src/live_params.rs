//! The live parameter set and the structural-change detector.
//!
//! Every continuous knob of the current preset is mirrored here on every
//! preset change, whatever kind of change it is; the render context reads
//! these values through shared cells, so continuous edits need no graph
//! rebuild. Alongside the mirror sits a fingerprint of exactly the
//! non-continuous fields — oscillator shapes and vibrato switches, the
//! low-frequency oscillator switch and shape, and the two effect switches.
//! Two presets carry the same fingerprint precisely when they differ only
//! in continuous knobs, so a changed fingerprint is what forces a rebuild.

use vstd::prelude::*;

use crate::protocol::{
    lfo_waveform_code, waveform_code, Preset, PresetView, BITS_FULL_CUTOFF, BITS_HALF,
    BITS_HUNDREDTH, BITS_ONE, BITS_TENTH, BITS_ZERO,
};

verus! {

/// A switch as the single bit it contributes to the fingerprint.
pub open spec fn switch_bit(b: bool) -> u64 {
    if b {
        1
    } else {
        0
    }
}

/// The structural fingerprint of a preset: the three oscillator shapes in
/// bits 0..11, their vibrato switches in bits 12..14, the low-frequency
/// oscillator switch in bit 15 and its shape in bits 16..17, and the delay
/// and reverb switches in bits 20 and 21. The fields occupy disjoint bits,
/// so the fingerprint determines them and nothing else.
pub open spec fn struct_fingerprint(v: PresetView) -> u64 {
    (waveform_code(v.osc1.waveform) as u64) | ((waveform_code(v.osc2.waveform) as u64) << 4) | (
    (waveform_code(v.osc3.waveform) as u64) << 8) | (switch_bit(v.osc1.vibrato) << 12) | (
    switch_bit(v.osc2.vibrato) << 13) | (switch_bit(v.osc3.vibrato) << 14) | (switch_bit(
        v.lfo_enabled,
    ) << 15) | ((lfo_waveform_code(v.lfo.waveform) as u64) << 16) | (switch_bit(v.delay.enabled)
        << 20) | (switch_bit(v.reverb.enabled) << 21)
}

/// Whether two presets agree on every field the fingerprint covers, which
/// is exactly the set of fields whose change forces a voice rebuild.
pub open spec fn same_structure(a: PresetView, b: PresetView) -> bool {
    &&& a.osc1.waveform == b.osc1.waveform
    &&& a.osc2.waveform == b.osc2.waveform
    &&& a.osc3.waveform == b.osc3.waveform
    &&& a.osc1.vibrato == b.osc1.vibrato
    &&& a.osc2.vibrato == b.osc2.vibrato
    &&& a.osc3.vibrato == b.osc3.vibrato
    &&& a.lfo_enabled == b.lfo_enabled
    &&& a.lfo.waveform == b.lfo.waveform
    &&& a.delay.enabled == b.delay.enabled
    &&& a.reverb.enabled == b.reverb.enabled
}

/// Packing ten bounded fields into disjoint bit ranges is injective.
#[verifier::spinoff_prover]
proof fn lemma_pack_injective(
    wa1: u64, wa2: u64, wa3: u64, va1: u64, va2: u64, va3: u64, la: u64, lwa: u64, da: u64,
    ra: u64, wb1: u64, wb2: u64, wb3: u64, vb1: u64, vb2: u64, vb3: u64, lb: u64, lwb: u64,
    db: u64, rb: u64,
)
    by (bit_vector)
    requires
        wa1 <= 4,
        wa2 <= 4,
        wa3 <= 4,
        va1 <= 1,
        va2 <= 1,
        va3 <= 1,
        la <= 1,
        lwa <= 3,
        da <= 1,
        ra <= 1,
        wb1 <= 4,
        wb2 <= 4,
        wb3 <= 4,
        vb1 <= 1,
        vb2 <= 1,
        vb3 <= 1,
        lb <= 1,
        lwb <= 3,
        db <= 1,
        rb <= 1,
        (wa1 | (wa2 << 4) | (wa3 << 8) | (va1 << 12) | (va2 << 13) | (va3 << 14) | (la << 15) | (
        lwa << 16) | (da << 20) | (ra << 21)) == (wb1 | (wb2 << 4) | (wb3 << 8) | (vb1 << 12) | (
        vb2 << 13) | (vb3 << 14) | (lb << 15) | (lwb << 16) | (db << 20) | (rb << 21)),
    ensures
        wa1 == wb1,
        wa2 == wb2,
        wa3 == wb3,
        va1 == vb1,
        va2 == vb2,
        va3 == vb3,
        la == lb,
        lwa == lwb,
        da == db,
        ra == rb,
{
}

/// Two presets carry the same fingerprint exactly when they agree on every
/// structural field: a change to a continuous knob alone never alters the
/// fingerprint, and a change to any structural field always does.
#[verifier::spinoff_prover]
#[verifier::rlimit(100)]
pub proof fn lemma_fingerprint_exact(a: PresetView, b: PresetView)
    ensures
        struct_fingerprint(a) == struct_fingerprint(b) <==> same_structure(a, b),
{
    if struct_fingerprint(a) == struct_fingerprint(b) {
        lemma_pack_injective(
            waveform_code(a.osc1.waveform) as u64,
            waveform_code(a.osc2.waveform) as u64,
            waveform_code(a.osc3.waveform) as u64,
            switch_bit(a.osc1.vibrato),
            switch_bit(a.osc2.vibrato),
            switch_bit(a.osc3.vibrato),
            switch_bit(a.lfo_enabled),
            lfo_waveform_code(a.lfo.waveform) as u64,
            switch_bit(a.delay.enabled),
            switch_bit(a.reverb.enabled),
            waveform_code(b.osc1.waveform) as u64,
            waveform_code(b.osc2.waveform) as u64,
            waveform_code(b.osc3.waveform) as u64,
            switch_bit(b.osc1.vibrato),
            switch_bit(b.osc2.vibrato),
            switch_bit(b.osc3.vibrato),
            switch_bit(b.lfo_enabled),
            lfo_waveform_code(b.lfo.waveform) as u64,
            switch_bit(b.delay.enabled),
            switch_bit(b.reverb.enabled),
        );
    }
}

/// Once the detector has recorded preset `a`, an update to preset `b`
/// reports a change exactly when `b` differs from `a` in some structural
/// field; edits confined to continuous knobs never report one.
pub proof fn lemma_detector_exact(lp: LiveParams, a: PresetView, b: PresetView)
    requires
        lp.last_struct_hash == struct_fingerprint(a),
    ensures
        (struct_fingerprint(b) != lp.last_struct_hash) <==> !same_structure(a, b),
{
    lemma_fingerprint_exact(a, b);
}

/// The continuous knobs of the current preset, mirrored for the render
/// context, together with the fingerprint of the preset they came from.
pub struct LiveParams {
    /// First oscillator level word.
    pub osc1_level: u32,
    /// First oscillator octave word.
    pub osc1_octave: u32,
    /// First oscillator detune word.
    pub osc1_detune: u32,
    /// Second oscillator level word.
    pub osc2_level: u32,
    /// Second oscillator octave word.
    pub osc2_octave: u32,
    /// Second oscillator detune word.
    pub osc2_detune: u32,
    /// Third oscillator level word.
    pub osc3_level: u32,
    /// Third oscillator octave word.
    pub osc3_octave: u32,
    /// Third oscillator detune word.
    pub osc3_detune: u32,
    /// Noise generator level word.
    pub noise_level: u32,
    /// Filter cutoff word.
    pub cutoff: u32,
    /// Filter resonance word.
    pub resonance: u32,
    /// Filter envelope amount word.
    pub filter_env_amt: u32,
    /// Filter envelope attack word.
    pub filter_attack: u32,
    /// Filter envelope decay word.
    pub filter_decay: u32,
    /// Filter envelope sustain word.
    pub filter_sustain: u32,
    /// Filter envelope release word.
    pub filter_release: u32,
    /// Amplitude envelope attack word.
    pub amp_attack: u32,
    /// Amplitude envelope decay word.
    pub amp_decay: u32,
    /// Amplitude envelope sustain word.
    pub amp_sustain: u32,
    /// Amplitude envelope release word.
    pub amp_release: u32,
    /// Delay time word.
    pub delay_time: u32,
    /// Delay feedback word.
    pub delay_feedback: u32,
    /// Delay mix word.
    pub delay_mix: u32,
    /// Reverb size word.
    pub reverb_size: u32,
    /// Reverb damping word.
    pub reverb_damping: u32,
    /// Reverb mix word.
    pub reverb_mix: u32,
    /// Low-frequency oscillator frequency word.
    pub lfo_freq: u32,
    /// Low-frequency oscillator pitch depth word.
    pub lfo_vib_amt: u32,
    /// Low-frequency oscillator filter depth word.
    pub lfo_filt_amt: u32,
    /// Fingerprint of the preset last mirrored.
    pub last_struct_hash: u64,
}

/// Whether a live parameter set mirrors a preset's continuous knobs.
pub open spec fn mirrors(lp: LiveParams, v: PresetView) -> bool {
    &&& lp.osc1_level == v.osc1.level
    &&& lp.osc1_octave == v.osc1.octave
    &&& lp.osc1_detune == v.osc1.detune
    &&& lp.osc2_level == v.osc2.level
    &&& lp.osc2_octave == v.osc2.octave
    &&& lp.osc2_detune == v.osc2.detune
    &&& lp.osc3_level == v.osc3.level
    &&& lp.osc3_octave == v.osc3.octave
    &&& lp.osc3_detune == v.osc3.detune
    &&& lp.noise_level == v.noise
    &&& lp.cutoff == v.filter.cutoff
    &&& lp.resonance == v.filter.resonance
    &&& lp.filter_env_amt == v.filter.env_amt
    &&& lp.filter_attack == v.filter.attack
    &&& lp.filter_decay == v.filter.decay
    &&& lp.filter_sustain == v.filter.sustain
    &&& lp.filter_release == v.filter.release
    &&& lp.amp_attack == v.amp.attack
    &&& lp.amp_decay == v.amp.decay
    &&& lp.amp_sustain == v.amp.sustain
    &&& lp.amp_release == v.amp.release
    &&& lp.delay_time == v.delay.time
    &&& lp.delay_feedback == v.delay.feedback
    &&& lp.delay_mix == v.delay.mix
    &&& lp.reverb_size == v.reverb.size
    &&& lp.reverb_damping == v.reverb.damping
    &&& lp.reverb_mix == v.reverb.mix
    &&& lp.lfo_freq == v.lfo.freq
    &&& lp.lfo_vib_amt == v.lfo.vib_amt
    &&& lp.lfo_filt_amt == v.lfo.filt_amt
}

/// The startup value of every live parameter: the knobs of the default
/// preset, except that the delay time and the reverb size and damping are
/// seeded at one half (those stages read their knobs live even while the
/// default preset disables them), and no fingerprint is recorded yet.
pub open spec fn startup_live_params() -> LiveParams {
    LiveParams {
        osc1_level: BITS_ONE,
        osc1_octave: BITS_ZERO,
        osc1_detune: BITS_ZERO,
        osc2_level: BITS_ZERO,
        osc2_octave: BITS_ZERO,
        osc2_detune: BITS_ZERO,
        osc3_level: BITS_ZERO,
        osc3_octave: BITS_ZERO,
        osc3_detune: BITS_ZERO,
        noise_level: BITS_ZERO,
        cutoff: BITS_FULL_CUTOFF,
        resonance: BITS_ZERO,
        filter_env_amt: BITS_ZERO,
        filter_attack: BITS_ZERO,
        filter_decay: BITS_ZERO,
        filter_sustain: BITS_ONE,
        filter_release: BITS_ZERO,
        amp_attack: BITS_HUNDREDTH,
        amp_decay: BITS_TENTH,
        amp_sustain: BITS_ONE,
        amp_release: BITS_TENTH,
        delay_time: BITS_HALF,
        delay_feedback: BITS_ZERO,
        delay_mix: BITS_ZERO,
        reverb_size: BITS_HALF,
        reverb_damping: BITS_HALF,
        reverb_mix: BITS_ZERO,
        lfo_freq: BITS_ONE,
        lfo_vib_amt: BITS_ZERO,
        lfo_filt_amt: BITS_ZERO,
        last_struct_hash: 0,
    }
}

impl LiveParams {
    /// A fresh parameter set holding exactly the engine's startup values.
    pub fn new() -> (r: LiveParams)
        ensures
            r == startup_live_params(),
    {
        LiveParams {
            osc1_level: BITS_ONE,
            osc1_octave: BITS_ZERO,
            osc1_detune: BITS_ZERO,
            osc2_level: BITS_ZERO,
            osc2_octave: BITS_ZERO,
            osc2_detune: BITS_ZERO,
            osc3_level: BITS_ZERO,
            osc3_octave: BITS_ZERO,
            osc3_detune: BITS_ZERO,
            noise_level: BITS_ZERO,
            cutoff: BITS_FULL_CUTOFF,
            resonance: BITS_ZERO,
            filter_env_amt: BITS_ZERO,
            filter_attack: BITS_ZERO,
            filter_decay: BITS_ZERO,
            filter_sustain: BITS_ONE,
            filter_release: BITS_ZERO,
            amp_attack: BITS_HUNDREDTH,
            amp_decay: BITS_TENTH,
            amp_sustain: BITS_ONE,
            amp_release: BITS_TENTH,
            delay_time: BITS_HALF,
            delay_feedback: BITS_ZERO,
            delay_mix: BITS_ZERO,
            reverb_size: BITS_HALF,
            reverb_damping: BITS_HALF,
            reverb_mix: BITS_ZERO,
            lfo_freq: BITS_ONE,
            lfo_vib_amt: BITS_ZERO,
            lfo_filt_amt: BITS_ZERO,
            last_struct_hash: 0,
        }
    }

    /// Computes the structural fingerprint of a preset.
    pub fn fingerprint_of(p: &Preset) -> (r: u64)
        ensures
            r == struct_fingerprint(p@),
    {
        let w1 = p.osc1.waveform.code() as u64;
        let w2 = p.osc2.waveform.code() as u64;
        let w3 = p.osc3.waveform.code() as u64;
        let v1: u64 = if p.osc1.vibrato {
            1
        } else {
            0
        };
        let v2: u64 = if p.osc2.vibrato {
            1
        } else {
            0
        };
        let v3: u64 = if p.osc3.vibrato {
            1
        } else {
            0
        };
        let le: u64 = if p.lfo_enabled {
            1
        } else {
            0
        };
        let lw = p.lfo.waveform.code() as u64;
        let de: u64 = if p.delay.enabled {
            1
        } else {
            0
        };
        let re: u64 = if p.reverb.enabled {
            1
        } else {
            0
        };
        w1 | (w2 << 4) | (w3 << 8) | (v1 << 12) | (v2 << 13) | (v3 << 14) | (le << 15) | (lw << 16)
            | (de << 20) | (re << 21)
    }

    /// Mirrors every continuous knob of `p`, records `p`'s fingerprint,
    /// and reports whether the fingerprint differs from the one recorded
    /// before — that is, whether the edit was structural.
    pub fn update(&mut self, p: &Preset) -> (changed: bool)
        ensures
            mirrors(*final(self), p@),
            final(self).last_struct_hash == struct_fingerprint(p@),
            changed == (struct_fingerprint(p@) != old(self).last_struct_hash),
    {
        self.osc1_level = p.osc1.level;
        self.osc1_octave = p.osc1.octave;
        self.osc1_detune = p.osc1.detune;
        self.osc2_level = p.osc2.level;
        self.osc2_octave = p.osc2.octave;
        self.osc2_detune = p.osc2.detune;
        self.osc3_level = p.osc3.level;
        self.osc3_octave = p.osc3.octave;
        self.osc3_detune = p.osc3.detune;
        self.noise_level = p.noise;
        self.cutoff = p.filter.cutoff;
        self.resonance = p.filter.resonance;
        self.filter_env_amt = p.filter.env_amt;
        self.filter_attack = p.filter.attack;
        self.filter_decay = p.filter.decay;
        self.filter_sustain = p.filter.sustain;
        self.filter_release = p.filter.release;
        self.amp_attack = p.amp.attack;
        self.amp_decay = p.amp.decay;
        self.amp_sustain = p.amp.sustain;
        self.amp_release = p.amp.release;
        self.delay_time = p.delay.time;
        self.delay_feedback = p.delay.feedback;
        self.delay_mix = p.delay.mix;
        self.reverb_size = p.reverb.size;
        self.reverb_damping = p.reverb.damping;
        self.reverb_mix = p.reverb.mix;
        self.lfo_freq = p.lfo.freq;
        self.lfo_vib_amt = p.lfo.vib_amt;
        self.lfo_filt_amt = p.lfo.filt_amt;

        let hash = LiveParams::fingerprint_of(p);
        let changed = hash != self.last_struct_hash;
        self.last_struct_hash = hash;
        changed
    }
}

} // verus!
