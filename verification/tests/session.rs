//! Tests of chunk reassembly, frame classification and the piano logic.

use picoedit::piano::{is_black_key, piano_pointer_events, PianoEvent, PianoWidget};
use picoedit::protocol::{Preset, Storage};
use picoedit::session::{classify_sysex, port_name_matches, SysexAssembler, SysexEvent};

#[test]
fn assembler_joins_chunks_into_one_frame() {
    let mut assembler = SysexAssembler::new();
    assert!(assembler.push_chunk(&[0xF0, 0x7D]).is_none());
    assert!(assembler.push_chunk(&[0x01, 0x02]).is_none());
    let frame = assembler.push_chunk(&[0xF7]).expect("the end byte completes the frame");
    assert_eq!(frame, vec![0xF0, 0x7D, 0x01, 0x02, 0xF7]);
}

#[test]
fn assembler_drops_noise_before_a_frame_starts() {
    let mut assembler = SysexAssembler::new();
    assert!(assembler.push_chunk(&[0x90, 0x3C, 0x64]).is_none()); // not frame data
    let frame = assembler.push_chunk(&[0x55, 0xF0, 0x7D, 0xF7]).unwrap();
    assert_eq!(frame, vec![0xF0, 0x7D, 0xF7]); // bytes before the start byte fall away
}

#[test]
fn assembler_restarts_on_a_new_start_byte() {
    let mut assembler = SysexAssembler::new();
    assert!(assembler.push_chunk(&[0xF0, 0x01, 0x02]).is_none());
    assert!(assembler.push_chunk(&[0xF0, 0x7D]).is_none()); // abandons the first frame
    let frame = assembler.push_chunk(&[0xF7]).unwrap();
    assert_eq!(frame, vec![0xF0, 0x7D, 0xF7]);
}

#[test]
fn assembler_carries_a_whole_bank_in_small_chunks() {
    let bank = Storage { presets: vec![Preset::default()] };
    let msg = bank.to_sysex();
    let mut assembler = SysexAssembler::new();
    let mut complete = None;
    for chunk in msg.chunks(100) {
        assert!(complete.is_none());
        complete = assembler.push_chunk(chunk);
    }
    let frame = complete.expect("the last chunk completes the frame");
    assert_eq!(frame, msg);
    match classify_sysex(&frame) {
        SysexEvent::Bank(decoded) => assert_eq!(decoded.presets, bank.presets),
        _ => panic!("a valid dump frame must classify as a bank"),
    }
}

#[test]
fn classification_sorts_every_reply() {
    assert!(matches!(
        classify_sysex(&[0xF0, 0x7D, 0x01, 0x03, 0xF7]),
        SysexEvent::WriteOk
    ));
    assert!(matches!(
        classify_sysex(&[0xF0, 0x7D, 0x01, 0x04, 0x02, 0xF7]),
        SysexEvent::WriteFailed(0x02)
    ));
    // A write-request frame with a broken payload is a rejected dump.
    assert!(matches!(
        classify_sysex(&[0xF0, 0x7D, 0x01, 0x02, 0xF7]),
        SysexEvent::BadDump
    ));
    // A dump request is not something the editor handles.
    assert!(matches!(
        classify_sysex(&[0xF0, 0x7D, 0x01, 0x01, 0xF7]),
        SysexEvent::Unknown(0x01)
    ));
    // Another vendor's frame, or one too short for a command, is ignored.
    assert!(matches!(
        classify_sysex(&[0xF0, 0x7C, 0x01, 0x03, 0xF7]),
        SysexEvent::Ignored
    ));
    assert!(matches!(
        classify_sysex(&[0xF0, 0x7D, 0x02, 0x03, 0xF7]),
        SysexEvent::Ignored
    ));
    assert!(matches!(classify_sysex(&[0xF0, 0xF7]), SysexEvent::Ignored));
}

#[test]
fn black_keys_follow_the_octave_pattern() {
    let blacks: Vec<u8> = (0..24).filter(|&n| is_black_key(n)).collect();
    assert_eq!(blacks, vec![1, 3, 6, 8, 10, 13, 15, 18, 20, 22]);
}

#[test]
fn white_key_counts_fix_the_layout() {
    assert_eq!(PianoWidget::new(48, 24).white_key_count(), 14); // two octaves
    assert_eq!(PianoWidget::new(36, 61).white_key_count(), 36); // five octaves and a key
    assert_eq!(PianoWidget::new(49, 1).white_key_count(), 0); // a lone black key
    assert_eq!(PianoWidget::new(60, 0).white_key_count(), 0);
}

#[test]
fn pressing_a_new_key_is_monophonic() {
    let mut held = vec![60u8, 64];
    let events = piano_pointer_events(&mut held, Some(67), true, true, true);
    assert_eq!(held, vec![67]);
    assert_eq!(
        events,
        vec![
            PianoEvent { note: 60, velocity: 0, pressed: false },
            PianoEvent { note: 64, velocity: 0, pressed: false },
            PianoEvent { note: 67, velocity: 100, pressed: true },
        ]
    );
}

#[test]
fn holding_the_same_key_produces_nothing() {
    let mut held = vec![67u8];
    let events = piano_pointer_events(&mut held, Some(67), true, true, true);
    assert!(events.is_empty());
    assert_eq!(held, vec![67]);
}

#[test]
fn lifting_or_leaving_releases_everything() {
    let mut held = vec![60u8, 64];
    let events = piano_pointer_events(&mut held, None, false, true, true);
    assert_eq!(events.len(), 2);
    assert!(events.iter().all(|e| !e.pressed && e.velocity == 0));
    assert!(held.is_empty());

    let mut held = vec![60u8];
    let events = piano_pointer_events(&mut held, None, true, true, false);
    assert_eq!(events, vec![PianoEvent { note: 60, velocity: 0, pressed: false }]);
    assert!(held.is_empty());

    // No pointer at all: releases unless a drag is still in progress.
    let mut held = vec![60u8];
    let events = piano_pointer_events(&mut held, None, true, false, false);
    assert!(events.is_empty());
    assert_eq!(held, vec![60]);

    let mut held = vec![60u8];
    let events = piano_pointer_events(&mut held, None, false, false, false);
    assert_eq!(events.len(), 1);
    assert!(held.is_empty());
}

#[test]
fn name_matching_ignores_ascii_case() {
    assert!(port_name_matches(b"PicoDSP MIDI 1", b"picodsp"));
    assert!(port_name_matches(b"loop-PICODSP-out", b"picodsp"));
    assert!(port_name_matches(b"anything", b""));
    assert!(!port_name_matches(b"", b"picodsp"));
    assert!(!port_name_matches(b"PicoDS", b"picodsp"));
    assert!(!port_name_matches(b"other synth", b"picodsp"));
    assert!(port_name_matches(b"abcabd", b"cabd"));
}
