//! Tests of the preset record codec.

use picoedit::bytes::{read_u32, write_u32};
use picoedit::protocol::{LfoWaveform, Preset, Waveform};

#[test]
fn write_and_read_u32_round_trip() {
    let mut buf: Vec<u8> = Vec::new();
    write_u32(&mut buf, 0x12345678);
    write_u32(&mut buf, 0);
    write_u32(&mut buf, u32::MAX);
    assert_eq!(buf, vec![0x78, 0x56, 0x34, 0x12, 0, 0, 0, 0, 0xff, 0xff, 0xff, 0xff]);
    let mut offset: usize = 0;
    assert_eq!(read_u32(&buf, &mut offset), 0x12345678);
    assert_eq!(read_u32(&buf, &mut offset), 0);
    assert_eq!(read_u32(&buf, &mut offset), u32::MAX);
    assert_eq!(offset, 12);
}

#[test]
fn default_preset_record_holds_the_float_defaults() {
    let p = Preset::default();
    let bytes = p.to_bytes();
    assert_eq!(bytes.len(), 200);

    // Name field: "Init Patch" zero-padded to 32 bytes.
    assert_eq!(&bytes[0..10], b"Init Patch");
    assert!(bytes[10..32].iter().all(|&b| b == 0));

    // First oscillator: a saw at full level, nothing else.
    assert_eq!(&bytes[32..36], &2u32.to_le_bytes());
    assert_eq!(&bytes[36..40], &1.0f32.to_le_bytes());
    assert_eq!(&bytes[40..44], &0.0f32.to_le_bytes());
    assert_eq!(&bytes[44..48], &0.0f32.to_le_bytes());
    assert_eq!(&bytes[48..52], &0u32.to_le_bytes());

    // Second and third oscillators differ only in level.
    assert_eq!(&bytes[56..60], &0.0f32.to_le_bytes());
    assert_eq!(&bytes[76..80], &0.0f32.to_le_bytes());

    // Filter: open cutoff, full sustain.
    assert_eq!(&bytes[100..104], &20000.0f32.to_le_bytes());
    assert_eq!(&bytes[120..124], &1.0f32.to_le_bytes());

    // Amplitude envelope: 0.01 attack, 0.1 decay, 1.0 sustain, 0.1 release.
    assert_eq!(&bytes[128..132], &0.01f32.to_le_bytes());
    assert_eq!(&bytes[132..136], &0.1f32.to_le_bytes());
    assert_eq!(&bytes[136..140], &1.0f32.to_le_bytes());
    assert_eq!(&bytes[140..144], &0.1f32.to_le_bytes());

    // Low-frequency oscillator disabled, one-hertz sine.
    assert_eq!(&bytes[144..148], &0u32.to_le_bytes());
    assert_eq!(&bytes[148..152], &1.0f32.to_le_bytes());

    // Padding word.
    assert_eq!(&bytes[196..200], &0u32.to_le_bytes());
}

#[test]
fn preset_round_trip_is_exact() {
    let mut p = Preset::default();
    p.name = b"Lead 1".to_vec();
    p.osc1.waveform = Waveform::Triangle;
    p.osc1.vibrato = true;
    p.osc2.level = 0.7f32.to_bits();
    p.osc2.octave = (-1.0f32).to_bits();
    p.osc3.detune = (-3.5f32).to_bits();
    p.noise = 0.25f32.to_bits();
    p.portamento = 0.4f32.to_bits();
    p.filter.cutoff = 823.5f32.to_bits();
    p.filter.resonance = 0.61f32.to_bits();
    p.amp.release = 2.5f32.to_bits();
    p.lfo_enabled = true;
    p.lfo.freq = 5.5f32.to_bits();
    p.lfo.waveform = LfoWaveform::Triangle;
    p.lfo.vib_amt = 12.0f32.to_bits();
    p.delay.enabled = true;
    p.delay.time = 0.33f32.to_bits();
    p.reverb.enabled = true;
    p.reverb.mix = 0.8f32.to_bits();

    let q = Preset::from_bytes(&p.to_bytes());
    assert_eq!(q, p);
}

#[test]
fn preset_round_trip_keeps_nan_and_infinity_bits() {
    let mut p = Preset::default();
    p.filter.resonance = f32::NAN.to_bits();
    p.filter.env_amt = f32::INFINITY.to_bits();
    p.osc1.octave = f32::NEG_INFINITY.to_bits();
    let q = Preset::from_bytes(&p.to_bytes());
    assert_eq!(q.filter.resonance, f32::NAN.to_bits());
    assert_eq!(q.filter.env_amt, f32::INFINITY.to_bits());
    assert_eq!(q.osc1.octave, f32::NEG_INFINITY.to_bits());
}

#[test]
fn long_name_truncates_to_32_bytes() {
    let mut p = Preset::default();
    p.name = vec![b'x'; 40];
    let q = Preset::from_bytes(&p.to_bytes());
    assert_eq!(q.name, vec![b'x'; 32]);
}

#[test]
fn empty_name_survives_round_trip() {
    let mut p = Preset::default();
    p.name = Vec::new();
    let q = Preset::from_bytes(&p.to_bytes());
    assert_eq!(q.name, Vec::<u8>::new());
}

#[test]
fn unknown_waveform_words_coerce_to_defaults() {
    let mut bytes = Preset::default().to_bytes();
    // First oscillator's shape word.
    bytes[32..36].copy_from_slice(&7u32.to_le_bytes());
    // Low-frequency oscillator's shape word.
    bytes[152..156].copy_from_slice(&9u32.to_le_bytes());
    let q = Preset::from_bytes(&bytes);
    assert_eq!(q.osc1.waveform, Waveform::Noise);
    assert_eq!(q.lfo.waveform, LfoWaveform::Square);
}

#[test]
fn every_defined_waveform_word_decodes_to_itself() {
    for (word, wf) in [
        (0u32, Waveform::Sine),
        (1, Waveform::Triangle),
        (2, Waveform::Saw),
        (3, Waveform::Square),
        (4, Waveform::Noise),
    ] {
        assert_eq!(Waveform::from(word), wf);
    }
    for (word, wf) in [
        (0u32, LfoWaveform::Sine),
        (1, LfoWaveform::Triangle),
        (2, LfoWaveform::Saw),
        (3, LfoWaveform::Square),
    ] {
        assert_eq!(LfoWaveform::from(word), wf);
    }
}

#[test]
fn nonzero_switch_words_decode_as_on() {
    let mut bytes = Preset::default().to_bytes();
    // The low-frequency oscillator's enable word: any nonzero value is on.
    bytes[144..148].copy_from_slice(&5u32.to_le_bytes());
    // First oscillator's vibrato word.
    bytes[48..52].copy_from_slice(&0x8000_0000u32.to_le_bytes());
    let q = Preset::from_bytes(&bytes);
    assert!(q.lfo_enabled);
    assert!(q.osc1.vibrato);
}

#[test]
fn duplicate_names_append_and_truncate() {
    let mut p = Preset::default();
    p.name = b"Saw Lead".to_vec();
    assert_eq!(p.duplicate_name(), b"Saw Lead Copy".to_vec());
    p.name = vec![b'y'; 30];
    let name = p.duplicate_name();
    assert_eq!(name.len(), 32);
    assert_eq!(&name[30..], b" C");
}
