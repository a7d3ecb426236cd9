//! Tests of the engine: fingerprinting, the glide, the oscillator, the
//! command queue and the voice plan.

use picoedit::engine::{
    classify_preset_update, glide_milli_of_bits, plan_voice, Controller, EngineState,
    COMMAND_QUEUE_CAPACITY,
};
use picoedit::fast_lfo::{FastLfo, FastLfoWaveform};
use picoedit::live_params::LiveParams;
use picoedit::portamento::Portamento;
use picoedit::protocol::{LfoWaveform, Preset, Waveform};
use picoedit::queue::{command_channel, try_recv_command, try_send_command, Command};

#[test]
fn fresh_live_params_hold_the_startup_values() {
    let lp = LiveParams::new();
    assert_eq!(lp.osc1_level, 1.0f32.to_bits());
    assert_eq!(lp.osc2_level, 0.0f32.to_bits());
    assert_eq!(lp.cutoff, 20000.0f32.to_bits());
    assert_eq!(lp.filter_sustain, 1.0f32.to_bits());
    assert_eq!(lp.amp_attack, 0.01f32.to_bits());
    assert_eq!(lp.amp_decay, 0.1f32.to_bits());
    assert_eq!(lp.amp_release, 0.1f32.to_bits());
    assert_eq!(lp.delay_time, 0.5f32.to_bits());
    assert_eq!(lp.delay_feedback, 0.0f32.to_bits());
    assert_eq!(lp.reverb_size, 0.5f32.to_bits());
    assert_eq!(lp.reverb_damping, 0.5f32.to_bits());
    assert_eq!(lp.lfo_freq, 1.0f32.to_bits());
    assert_eq!(lp.last_struct_hash, 0);
}

#[test]
fn continuous_edits_do_not_change_the_fingerprint() {
    let mut lp = LiveParams::new();
    let mut p = Preset::default();
    lp.update(&p);

    p.filter.cutoff = 800.0f32.to_bits();
    assert!(!lp.update(&p));
    p.osc1.level = 0.3f32.to_bits();
    p.osc2.detune = 7.5f32.to_bits();
    p.amp.attack = 0.7f32.to_bits();
    p.portamento = 0.9f32.to_bits();
    p.delay.mix = 0.4f32.to_bits();
    p.name = b"Other".to_vec();
    assert!(!lp.update(&p));

    // The continuous knobs are mirrored either way.
    assert_eq!(lp.cutoff, p.filter.cutoff);
    assert_eq!(lp.osc1_level, p.osc1.level);
    assert_eq!(lp.amp_attack, p.amp.attack);
    assert_eq!(lp.delay_mix, p.delay.mix);
}

#[test]
fn every_structural_edit_changes_the_fingerprint() {
    let mut lp = LiveParams::new();
    let mut p = Preset::default();
    lp.update(&p);

    p.osc1.waveform = Waveform::Square;
    assert!(lp.update(&p));
    assert!(!lp.update(&p));

    p.osc2.waveform = Waveform::Sine;
    assert!(lp.update(&p));
    p.osc3.waveform = Waveform::Noise;
    assert!(lp.update(&p));
    p.osc1.vibrato = true;
    assert!(lp.update(&p));
    p.osc2.vibrato = true;
    assert!(lp.update(&p));
    p.osc3.vibrato = true;
    assert!(lp.update(&p));
    p.lfo_enabled = true;
    assert!(lp.update(&p));
    p.lfo.waveform = LfoWaveform::Saw;
    assert!(lp.update(&p));
    p.delay.enabled = true;
    assert!(lp.update(&p));
    p.reverb.enabled = true;
    assert!(lp.update(&p));
    assert!(!lp.update(&p));
}

#[test]
fn zero_glide_reaches_target_within_one_control_tick() {
    let mut port = Portamento::new(100_000);
    port.set_target(440_000);
    let out = port.process(32);
    assert_eq!(out[0], 440_000);
    assert!(out.iter().all(|&v| v == 440_000));
    assert_eq!(port.current_milli(), 440_000);
}

#[test]
fn long_glide_approaches_monotonically_and_holds_between_ticks() {
    let mut port = Portamento::new(100_000);
    port.set_portamento(999);
    port.set_target(200_000);

    // First control tick covers one thousandth of the distance.
    let out = port.process(32);
    assert_eq!(out[0], 100_100);
    // Zero-order hold: the whole block keeps the tick's value.
    assert!(out.iter().all(|&v| v == 100_100));

    // Across many blocks the frequency never falls back or overshoots.
    let mut last = 100_100;
    for _ in 0..200 {
        let out = port.process(32);
        let v = out[31];
        assert!(v >= last);
        assert!(v <= 200_000);
        last = v;
    }
}

#[test]
fn long_glide_never_stalls_short_of_the_target() {
    // Half a hertz from the target at the slowest glide: the rounded step
    // would be zero, so each tick must still advance by one thousandth
    // until the snap window is reached, then land exactly.
    let mut port = Portamento::new(199_500);
    port.set_portamento(999);
    port.set_target(200_000);
    let mut last = 199_500;
    let mut reached = false;
    for _ in 0..600 {
        let out = port.process(32);
        let v = out[31];
        assert!(v <= 200_000);
        if v == 200_000 {
            reached = true;
            break;
        }
        assert!(v > last, "the glide must progress on every control tick");
        last = v;
    }
    assert!(reached, "the glide must reach the target");
    // And it stays there.
    let out = port.process(32);
    assert!(out.iter().all(|&v| v == 200_000));
}

#[test]
fn glide_snaps_exactly_within_a_tenth_of_a_hertz() {
    let mut port = Portamento::new(199_950);
    port.set_portamento(999);
    port.set_target(200_000);
    let out = port.process(1);
    assert_eq!(out[0], 200_000);
}

#[test]
fn glide_amount_is_hard_clamped() {
    let mut port = Portamento::new(100_000);
    port.set_portamento(5_000);
    assert_eq!(port.glide_amount_milli(), 999);
}

#[test]
fn lfo_samples_stay_inside_the_configured_window() {
    for shape in [
        FastLfoWaveform::Sine,
        FastLfoWaveform::Triangle,
        FastLfoWaveform::Saw,
        FastLfoWaveform::Square,
    ] {
        let mut lfo = FastLfo::new(5_000, shape, 48_000);
        lfo.set_range(-250, 750);
        let out = lfo.process(20_000);
        assert_eq!(out.len(), 20_000);
        assert!(out.iter().all(|&v| (-250..=750).contains(&v)));
        // The oscillator actually oscillates: the window is exercised.
        let min = *out.iter().min().unwrap();
        let max = *out.iter().max().unwrap();
        assert!(min < 0);
        assert!(max > 500);
    }
}

#[test]
fn square_lfo_hits_both_window_edges() {
    let mut lfo = FastLfo::new(5_000, FastLfoWaveform::Square, 48_000);
    lfo.set_range(-250, 750);
    let out = lfo.process(20_000);
    assert!(out.contains(&750));
    assert!(out.contains(&-250));
    assert!(out.iter().all(|&v| v == 750 || v == -250));
}

#[test]
fn lfo_reset_restarts_the_cycle() {
    let mut lfo = FastLfo::new(2_500, FastLfoWaveform::Saw, 44_100);
    let first = lfo.process(500);
    lfo.reset();
    let second = lfo.process(500);
    assert_eq!(first, second);
}

#[test]
fn full_queue_drops_commands_without_blocking() {
    let (tx, rx) = command_channel(COMMAND_QUEUE_CAPACITY);
    let mut accepted = 0;
    for _ in 0..17 {
        if try_send_command(&tx, Command::NoteOn(440_000)) {
            accepted += 1;
        }
    }
    // The producer was never blocked, and at most the capacity was taken.
    assert_eq!(accepted, 16);

    let mut observed = 0;
    while let Some(cmd) = try_recv_command(&rx) {
        assert!(matches!(cmd, Command::NoteOn(440_000)));
        observed += 1;
    }
    assert!(observed <= 16);
    assert_eq!(observed, accepted);
}

#[test]
fn commands_move_the_render_state() {
    let mut st = EngineState::new();
    assert!(!st.gate);
    assert_eq!(st.portamento.current_milli(), 440_000);

    assert!(st.apply_command(Command::NoteOn(220_000)).is_none());
    assert!(st.gate);
    assert_eq!(st.portamento.target_milli(), 220_000);

    assert!(st.apply_command(Command::NoteOff).is_none());
    assert!(!st.gate);

    let mut p = Preset::default();
    p.portamento = 0.5f32.to_bits();
    let rebuild = st.apply_command(Command::StructuralRebuild(Box::new(p.clone())));
    assert_eq!(st.portamento.glide_amount_milli(), 500);
    assert_eq!(*rebuild.expect("a structural command asks for a rebuild"), p);

    p.portamento = 0.25f32.to_bits();
    assert!(st.apply_command(Command::ContinuousUpdate(Box::new(p))).is_none());
    assert_eq!(st.portamento.glide_amount_milli(), 250);
}

#[test]
fn drain_applies_queued_commands_in_order() {
    let (tx, rx) = command_channel(COMMAND_QUEUE_CAPACITY);
    let mut st = EngineState::new();

    let mut structural = Preset::default();
    structural.delay.enabled = true;
    assert!(try_send_command(&tx, Command::NoteOn(330_000)));
    assert!(try_send_command(&tx, Command::StructuralRebuild(Box::new(structural.clone()))));
    assert!(try_send_command(&tx, Command::NoteOff));

    let rebuilds = st.drain_commands(&rx);
    assert_eq!(rebuilds.len(), 1);
    assert_eq!(*rebuilds[0], structural);
    assert!(!st.gate);
    assert_eq!(st.portamento.target_milli(), 330_000);
}

#[test]
fn classification_matches_the_fingerprint() {
    let mut lp = LiveParams::new();
    let p = Preset::default();
    // The first edit after startup differs from the empty fingerprint.
    let cmd = classify_preset_update(&mut lp, Box::new(p.clone()));
    assert!(matches!(cmd, Command::StructuralRebuild(_)));
    // The same preset again is a continuous update.
    let cmd = classify_preset_update(&mut lp, Box::new(p.clone()));
    assert!(matches!(cmd, Command::ContinuousUpdate(_)));
    // A cutoff edit stays continuous; a waveform edit does not.
    let mut q = p.clone();
    q.filter.cutoff = 500.0f32.to_bits();
    let cmd = classify_preset_update(&mut lp, Box::new(q.clone()));
    assert!(matches!(cmd, Command::ContinuousUpdate(_)));
    q.osc3.waveform = Waveform::Sine;
    let cmd = classify_preset_update(&mut lp, Box::new(q));
    assert!(matches!(cmd, Command::StructuralRebuild(_)));
}

#[test]
fn controller_mirrors_and_queues_preset_edits() {
    let (tx, rx) = command_channel(COMMAND_QUEUE_CAPACITY);
    let mut ctl = Controller::new(tx);
    let mut p = Preset::default();
    p.filter.resonance = 0.77f32.to_bits();
    assert!(ctl.update_preset(Box::new(p.clone())));
    assert_eq!(ctl.live.resonance, p.filter.resonance);
    assert!(matches!(try_recv_command(&rx), Some(Command::StructuralRebuild(_))));

    assert!(ctl.note_on(261_626));
    assert!(ctl.note_off());
    assert!(matches!(try_recv_command(&rx), Some(Command::NoteOn(261_626))));
    assert!(matches!(try_recv_command(&rx), Some(Command::NoteOff)));
    assert!(try_recv_command(&rx).is_none());
}

#[test]
fn glide_words_read_as_clamped_thousandths() {
    assert_eq!(glide_milli_of_bits(0.0f32.to_bits()), 0);
    assert_eq!(glide_milli_of_bits((-0.0f32).to_bits()), 0);
    assert_eq!(glide_milli_of_bits(0.25f32.to_bits()), 250);
    assert_eq!(glide_milli_of_bits(0.5f32.to_bits()), 500);
    assert_eq!(glide_milli_of_bits(1.0f32.to_bits()), 999);
    assert_eq!(glide_milli_of_bits(2.0f32.to_bits()), 999);
    assert_eq!(glide_milli_of_bits(f32::INFINITY.to_bits()), 999);
    assert_eq!(glide_milli_of_bits((-0.5f32).to_bits()), 0);
    assert_eq!(glide_milli_of_bits(f32::NAN.to_bits()), 0);
    assert_eq!(glide_milli_of_bits(1.0e-9f32.to_bits()), 0);
    assert_eq!(glide_milli_of_bits(f32::MIN_POSITIVE.to_bits() - 1), 0); // largest denormal
    assert!(glide_milli_of_bits(0.999f32.to_bits()) >= 998);
    // The reading is the floor of the knob in thousandths.
    assert_eq!(glide_milli_of_bits(0.1234f32.to_bits()), 123);
}

#[test]
fn voice_plan_follows_the_preset_structure() {
    let p = Preset::default();
    let plan = plan_voice(&p);
    assert_eq!(plan.osc1.waveform, Waveform::Saw);
    assert!(!plan.osc1.octave_scaled);
    assert!(!plan.osc1.vibrato);
    assert!(plan.lfo.is_none());
    assert!(!plan.delay_enabled);
    assert!(!plan.reverb_enabled);

    let mut p = Preset::default();
    p.osc1.octave = (-0.0f32).to_bits();
    p.osc2.octave = 1.0f32.to_bits();
    p.osc2.vibrato = true; // no effect while the oscillator is disabled
    let plan = plan_voice(&p);
    assert!(!plan.osc1.octave_scaled); // minus zero is still zero
    assert!(plan.osc2.octave_scaled);
    assert!(!plan.osc2.vibrato);

    p.lfo_enabled = true;
    p.lfo.waveform = LfoWaveform::Triangle;
    p.lfo.vib_amt = 9.0f32.to_bits();
    p.delay.enabled = true;
    let plan = plan_voice(&p);
    assert!(plan.osc2.vibrato);
    let lfo = plan.lfo.expect("the plan carries the oscillator pair");
    assert_eq!(lfo.shape, FastLfoWaveform::Triangle);
    assert_eq!(lfo.vib_amt, 9.0f32.to_bits());
    assert!(plan.delay_enabled);
    assert!(!plan.reverb_enabled);
}
