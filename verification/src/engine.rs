//! The audio engine's decision core: what the control context sends, and
//! how the render context's state changes for each command it drains.
//!
//! The control side classifies every preset edit — it mirrors the knobs
//! into the live parameter set and turns the edit into either a continuous
//! update or a structural rebuild, by the fingerprint. The render side
//! drains all queued commands at a block boundary and applies each in
//! order: notes flip the note switch and aim the glide, preset commands move
//! the glide amount, and a structural rebuild is handed back to the caller,
//! who owns the actual voice graph. A [`VoicePlan`] states which parts that
//! graph must be built from, so rebuilding is a pure function of the
//! preset.

use vstd::prelude::*;

use vstd::arithmetic::div_mod::lemma_basic_div;
use vstd::arithmetic::power2::{lemma_pow2_pos, lemma_pow2_strictly_increases, pow2};
use vstd::bits::lemma_u64_shr_is_div;

use crate::fast_lfo::{fast_shape_of, FastLfoWaveform};
use crate::live_params::{mirrors, startup_live_params, struct_fingerprint, LiveParams};
use crate::portamento::{GlideState, Portamento};
use crate::protocol::{Preset, PresetView, Waveform};
use crate::queue::{try_recv_command, try_send_command, Command};

verus! {

/// The glide amount a knob word means, in thousandths, interpreting the
/// word as the bits of a single-precision float hard-clamped to 0..=0.999:
/// negative values, zeros, denormals (all under a thousandth) and
/// non-numbers mean no glide; values of 0.999 and above, infinity
/// included, mean the longest glide.
pub open spec fn glide_milli(bits: u32) -> int {
    let sign = bits >> 31;
    let expf = (bits >> 23) & 0xff;
    let frac = (bits & 0x7fffff) as int;
    let m = 0x800000 + frac;
    if sign == 1 {
        0
    } else if expf == 0 {
        0
    } else if expf == 0xff {
        if frac != 0 {
            0
        } else {
            999
        }
    } else if expf >= 150 {
        999
    } else {
        let q = (m * 1000) / pow2((150 - expf) as nat) as int;
        if q > 999 {
            999
        } else {
            q
        }
    }
}

/// Reads a glide knob word into thousandths, as [`glide_milli`] says.
pub fn glide_milli_of_bits(bits: u32) -> (r: u32)
    ensures
        r as int == glide_milli(bits),
        r <= 999,
{
    let sign = bits >> 31;
    let expf = (bits >> 23) & 0xff;
    let frac = bits & 0x7fffff;
    proof {
        assert(bits >> 31 <= 1 && (bits >> 23) & 0xff <= 0xff && bits & 0x7fffff <= 0x7fffff)
            by (bit_vector);
    }
    if sign == 1 {
        0
    } else if expf == 0 {
        0
    } else if expf == 0xff {
        if frac != 0 {
            0
        } else {
            999
        }
    } else if expf >= 150 {
        999
    } else {
        let shift = 150 - expf;
        let scaled_wide: u64 = (0x800000u64 + frac as u64) * 1000;
        proof {
            lemma_pow2_pos((150 - expf) as nat);
        }
        if shift >= 34 {
            proof {
                if shift > 34 {
                    lemma_pow2_strictly_increases(34, (150 - expf) as nat);
                }
                vstd::arithmetic::power2::lemma2_to64_rest();
                lemma_basic_div(scaled_wide as int, pow2((150 - expf) as nat) as int);
            }
            0
        } else {
            let q: u64 = scaled_wide >> (shift as u64);
            proof {
                lemma_u64_shr_is_div(scaled_wide, shift as u64);
                assert(pow2((150 - expf) as nat) == pow2(shift as nat));
            }
            if q > 999 {
                999
            } else {
                q as u32
            }
        }
    }
}

/// How many commands the queue between the two contexts holds.
pub const COMMAND_QUEUE_CAPACITY: usize = 16;

/// The mathematical state of the render context: glide plus note switch.
pub struct EngineModel {
    /// The glide controller's state.
    pub glide: GlideState,
    /// Whether a note is held.
    pub gate: bool,
}

/// What one command does to the render state: note-on aims the glide and
/// raises `gate`, note-off lowers it, and either preset command takes the
/// preset's glide amount.
pub open spec fn command_step(m: EngineModel, cmd: Command) -> EngineModel {
    match cmd {
        Command::NoteOn(freq) => EngineModel {
            glide: GlideState { target: freq as int, ..m.glide },
            gate: true,
        },
        Command::NoteOff => EngineModel { gate: false, ..m },
        Command::ContinuousUpdate(p) => EngineModel {
            glide: GlideState { amount: glide_milli(p@.portamento), ..m.glide },
            ..m
        },
        Command::StructuralRebuild(p) => EngineModel {
            glide: GlideState { amount: glide_milli(p@.portamento), ..m.glide },
            ..m
        },
    }
}

/// The render state after a run of commands, applied in order.
pub open spec fn run_commands(m: EngineModel, cmds: Seq<Command>) -> EngineModel
    decreases cmds.len(),
{
    if cmds.len() == 0 {
        m
    } else {
        command_step(run_commands(m, cmds.drop_last()), cmds.last())
    }
}

/// The voice rebuilds a run of commands asks for: the payloads of its
/// structural commands, in order.
pub open spec fn rebuild_requests(cmds: Seq<Command>) -> Seq<Box<Preset>>
    decreases cmds.len(),
{
    if cmds.len() == 0 {
        Seq::empty()
    } else {
        rebuild_requests(cmds.drop_last()) + (match cmds.last() {
            Command::StructuralRebuild(p) => seq![p],
            _ => Seq::empty(),
        })
    }
}

/// A run of commands asks for at most one rebuild each.
proof fn lemma_rebuild_requests_len(cmds: Seq<Command>)
    ensures
        rebuild_requests(cmds).len() <= cmds.len(),
    decreases cmds.len(),
{
    if cmds.len() > 0 {
        lemma_rebuild_requests_len(cmds.drop_last());
    }
}

/// What the render context owns besides the voice graph itself: the pitch
/// glide and the note switch the envelopes follow.
pub struct EngineState {
    /// The portamento pitch controller feeding every oscillator.
    pub portamento: Portamento,
    /// Whether a note is held: raised by note-on, lowered by note-off.
    pub gate: bool,
}

impl EngineState {
    /// Well-formedness: the glide controller is in range.
    pub open spec fn wf(self) -> bool {
        self.portamento.wf()
    }

    /// The mathematical state of this render context.
    pub open spec fn model(self) -> EngineModel {
        EngineModel { glide: self.portamento.view(), gate: self.gate }
    }

    /// A fresh engine: gate down, glide parked at the tuning frequency of
    /// 440 hertz.
    pub fn new() -> (r: EngineState)
        ensures
            r.wf(),
            !r.gate,
            r.portamento.view().current == 440_000,
            r.portamento.view().target == 440_000,
            r.portamento.view().amount == 0,
            r.portamento.view().counter == 0,
    {
        EngineState { portamento: Portamento::new(440_000), gate: false }
    }

    /// Applies one drained command: note-on aims the glide and raises
    /// `gate`, note-off lowers it, and both preset commands take the
    /// preset's glide amount — the structural one additionally hands the
    /// preset back for a voice rebuild.
    pub fn apply_command(&mut self, cmd: Command) -> (rebuild: Option<Box<Preset>>)
        requires
            old(self).wf(),
        ensures
            final(self).wf(),
            match cmd {
                Command::NoteOn(freq) => {
                    &&& final(self).gate
                    &&& final(self).portamento.view() == (GlideState {
                        target: freq as int,
                        ..old(self).portamento.view()
                    })
                    &&& rebuild is None
                },
                Command::NoteOff => {
                    &&& !final(self).gate
                    &&& final(self).portamento == old(self).portamento
                    &&& rebuild is None
                },
                Command::ContinuousUpdate(p) => {
                    &&& final(self).gate == old(self).gate
                    &&& final(self).portamento.view() == (GlideState {
                        amount: glide_milli(p@.portamento),
                        ..old(self).portamento.view()
                    })
                    &&& rebuild is None
                },
                Command::StructuralRebuild(p) => {
                    &&& final(self).gate == old(self).gate
                    &&& final(self).portamento.view() == (GlideState {
                        amount: glide_milli(p@.portamento),
                        ..old(self).portamento.view()
                    })
                    &&& (rebuild matches Some(q) && q == p)
                },
            },
    {
        match cmd {
            Command::NoteOn(freq) => {
                self.portamento.set_target(freq);
                self.gate = true;
                None
            },
            Command::NoteOff => {
                self.gate = false;
                None
            },
            Command::ContinuousUpdate(p) => {
                self.portamento.set_portamento(glide_milli_of_bits(p.portamento));
                None
            },
            Command::StructuralRebuild(p) => {
                self.portamento.set_portamento(glide_milli_of_bits(p.portamento));
                Some(p)
            },
        }
    }

    /// Drains the commands queued at this block boundary, applying each in
    /// order, and returns the presets whose voices must be rebuilt, in the
    /// order they arrived: the new state and the rebuild list are exactly
    /// the fold of [`command_step`] over the drained commands (which
    /// commands came out only the queue knows). At most one queue-full of
    /// commands is taken, so the render context never spins here even
    /// while the control context keeps refilling the queue; the queue is
    /// first-in-first-out, so that still covers everything queued at the
    /// boundary.
    pub fn drain_commands(&mut self, receiver: &crossbeam_channel::Receiver<Command>) -> (rebuilds:
        Vec<Box<Preset>>)
        requires
            old(self).wf(),
        ensures
            final(self).wf(),
            rebuilds@.len() <= COMMAND_QUEUE_CAPACITY,
            exists|cmds: Seq<Command>|
                {
                    &&& cmds.len() <= COMMAND_QUEUE_CAPACITY
                    &&& final(self).model() == #[trigger] run_commands(old(self).model(), cmds)
                    &&& rebuilds@ == rebuild_requests(cmds)
                },
    {
        let ghost m0 = self.model();
        let ghost mut drained: Seq<Command> = Seq::empty();
        let mut rebuilds: Vec<Box<Preset>> = Vec::new();
        let mut budget: usize = COMMAND_QUEUE_CAPACITY;
        let mut more = true;
        while more && budget > 0
            invariant
                self.wf(),
                drained.len() + budget <= COMMAND_QUEUE_CAPACITY,
                self.model() == run_commands(m0, drained),
                rebuilds@ == rebuild_requests(drained),
            decreases budget,
        {
            budget = budget - 1;
            match try_recv_command(receiver) {
                Some(cmd) => {
                    let ghost c = cmd;
                    let ghost pre = self.model();
                    if let Some(p) = self.apply_command(cmd) {
                        rebuilds.push(p);
                    }
                    proof {
                        assert(self.model() == command_step(pre, c));
                        assert(drained.push(c).drop_last() =~= drained);
                        assert(self.model() == run_commands(m0, drained.push(c)));
                        assert(rebuilds@ =~= rebuild_requests(drained.push(c)));
                        drained = drained.push(c);
                    }
                },
                None => {
                    more = false;
                },
            }
        }
        proof {
            lemma_rebuild_requests_len(drained);
        }
        rebuilds
    }
}

/// The control context's side of the engine: the live parameter mirror and
/// the sending half of the command queue.
pub struct Controller {
    /// The mirrored continuous knobs and the last structural fingerprint.
    pub live: LiveParams,
    /// The sending half of the command queue.
    pub sender: crossbeam_channel::Sender<Command>,
}

/// Classifies one preset edit: mirrors every continuous knob into the live
/// parameter set and wraps the preset in the command its fingerprint calls
/// for — a structural rebuild when the fingerprint moved, a continuous
/// update when it did not.
pub fn classify_preset_update(live: &mut LiveParams, preset: Box<Preset>) -> (cmd: Command)
    ensures
        mirrors(*final(live), preset@),
        final(live).last_struct_hash == struct_fingerprint(preset@),
        struct_fingerprint(preset@) != old(live).last_struct_hash ==> cmd
            == Command::StructuralRebuild(preset),
        struct_fingerprint(preset@) == old(live).last_struct_hash ==> cmd
            == Command::ContinuousUpdate(preset),
{
    let changed = live.update(&preset);
    if changed {
        Command::StructuralRebuild(preset)
    } else {
        Command::ContinuousUpdate(preset)
    }
}

impl Controller {
    /// A controller around the sending half of a command queue, with every
    /// live parameter at its startup value.
    pub fn new(sender: crossbeam_channel::Sender<Command>) -> (r: Controller)
        ensures
            r.live == startup_live_params(),
    {
        Controller { live: LiveParams::new(), sender }
    }

    /// Queues a note-on at a frequency in thousandths of a hertz; reports
    /// whether the queue accepted it.
    pub fn note_on(&self, freq_milli: u32) -> (accepted: bool) {
        try_send_command(&self.sender, Command::NoteOn(freq_milli))
    }

    /// Queues a note-off; reports whether the queue accepted it.
    pub fn note_off(&self) -> (accepted: bool) {
        try_send_command(&self.sender, Command::NoteOff)
    }

    /// Mirrors a preset edit into the live parameters and queues the
    /// command its fingerprint calls for; reports whether the queue
    /// accepted it. The mirror is updated even when the queue is full.
    pub fn update_preset(&mut self, preset: Box<Preset>) -> (accepted: bool)
        ensures
            mirrors(final(self).live, preset@),
            final(self).live.last_struct_hash == struct_fingerprint(preset@),
    {
        let cmd = classify_preset_update(&mut self.live, preset);
        try_send_command(&self.sender, cmd)
    }
}

/// Whether an octave word shifts the pitch at build time: any word except
/// the two zeros (a float compare against 0.0 accepts both signs of zero).
pub open spec fn octave_active(bits: u32) -> bool {
    bits != 0 && bits != 0x8000_0000
}

/// How one oscillator's pitch chain is assembled.
#[derive(Clone, Copy, Debug, PartialEq, Eq, Structural)]
pub struct OscPlan {
    /// Shape of the oscillator.
    pub waveform: Waveform,
    /// Whether a fixed octave gain stage is inserted (the octave knob is
    /// read once, at build time).
    pub octave_scaled: bool,
    /// Whether this oscillator gets its own vibrato oscillator instance —
    /// only when the preset asks for vibrato and the low-frequency
    /// oscillator exists at all. Each oscillator clones its own instance
    /// so their phases stay uncoupled.
    pub vibrato: bool,
}

/// How the low-frequency oscillator pair is configured, in knob words.
#[derive(Clone, Copy, Debug, PartialEq, Eq, Structural)]
pub struct LfoPlan {
    /// Shape of the oscillation.
    pub shape: FastLfoWaveform,
    /// Frequency knob word.
    pub freq: u32,
    /// Pitch depth knob word.
    pub vib_amt: u32,
    /// Filter depth knob word.
    pub filt_amt: u32,
}

/// Which stages a voice graph is built from. Everything here is decided by
/// the preset alone; the knobs the stages read while running come from the
/// live parameter set instead.
#[derive(Clone, Copy, Debug, PartialEq, Eq, Structural)]
pub struct VoicePlan {
    /// First oscillator's pitch chain.
    pub osc1: OscPlan,
    /// Second oscillator's pitch chain.
    pub osc2: OscPlan,
    /// Third oscillator's pitch chain.
    pub osc3: OscPlan,
    /// The low-frequency oscillator pair, when enabled.
    pub lfo: Option<LfoPlan>,
    /// Whether the stereo delay pair is built in.
    pub delay_enabled: bool,
    /// Whether the reverb stage is built in.
    pub reverb_enabled: bool,
}

/// The plan a preset builds to.
pub open spec fn voice_plan(v: PresetView) -> VoicePlan {
    VoicePlan {
        osc1: OscPlan {
            waveform: v.osc1.waveform,
            octave_scaled: octave_active(v.osc1.octave),
            vibrato: v.osc1.vibrato && v.lfo_enabled,
        },
        osc2: OscPlan {
            waveform: v.osc2.waveform,
            octave_scaled: octave_active(v.osc2.octave),
            vibrato: v.osc2.vibrato && v.lfo_enabled,
        },
        osc3: OscPlan {
            waveform: v.osc3.waveform,
            octave_scaled: octave_active(v.osc3.octave),
            vibrato: v.osc3.vibrato && v.lfo_enabled,
        },
        lfo: if v.lfo_enabled {
            Some(
                LfoPlan {
                    shape: fast_shape_of(v.lfo.waveform),
                    freq: v.lfo.freq,
                    vib_amt: v.lfo.vib_amt,
                    filt_amt: v.lfo.filt_amt,
                },
            )
        } else {
            None
        },
        delay_enabled: v.delay.enabled,
        reverb_enabled: v.reverb.enabled,
    }
}

/// Decides which stages a preset's voice is assembled from.
pub fn plan_voice(p: &Preset) -> (r: VoicePlan)
    ensures
        r == voice_plan(p@),
{
    let lfo = if p.lfo_enabled {
        Some(
            LfoPlan {
                shape: crate::fast_lfo::map_lfo_waveform(p.lfo.waveform),
                freq: p.lfo.freq,
                vib_amt: p.lfo.vib_amt,
                filt_amt: p.lfo.filt_amt,
            },
        )
    } else {
        None
    };
    VoicePlan {
        osc1: OscPlan {
            waveform: p.osc1.waveform,
            octave_scaled: p.osc1.octave != 0 && p.osc1.octave != 0x8000_0000,
            vibrato: p.osc1.vibrato && p.lfo_enabled,
        },
        osc2: OscPlan {
            waveform: p.osc2.waveform,
            octave_scaled: p.osc2.octave != 0 && p.osc2.octave != 0x8000_0000,
            vibrato: p.osc2.vibrato && p.lfo_enabled,
        },
        osc3: OscPlan {
            waveform: p.osc3.waveform,
            octave_scaled: p.osc3.octave != 0 && p.osc3.octave != 0x8000_0000,
            vibrato: p.osc3.vibrato && p.lfo_enabled,
        },
        lfo,
        delay_enabled: p.delay.enabled,
        reverb_enabled: p.reverb.enabled,
    }
}

} // verus!
