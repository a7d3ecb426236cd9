//! Tests of the storage framer and the transport frame.

use picoedit::protocol::{Preset, Storage};

fn one_preset_bank() -> Storage {
    Storage { presets: vec![Preset::default()] }
}

#[test]
fn default_bank_frame_is_byte_exact_and_round_trips() {
    let bank = one_preset_bank();
    let msg = bank.to_sysex();

    // Envelope: start, vendor, device, write command, 8192 nibble bytes, end.
    assert_eq!(msg.len(), 8197);
    assert_eq!(msg[0], 0xF0);
    assert_eq!(msg[1], 0x7D);
    assert_eq!(msg[2], 0x01);
    assert_eq!(msg[3], 0x02);
    assert_eq!(msg[8196], 0xF7);
    assert!(msg[4..8196].iter().all(|&b| b <= 0x0F));

    // Header nibbles: magic 'PDSP' little-endian, version 7, count 1.
    assert_eq!(&msg[4..12], &[0x5, 0x0, 0x5, 0x3, 0x4, 0x4, 0x5, 0x0]);
    assert_eq!(&msg[12..20], &[0x0, 0x7, 0x0, 0x0, 0x0, 0x0, 0x0, 0x0]);
    assert_eq!(&msg[20..28], &[0x0, 0x1, 0x0, 0x0, 0x0, 0x0, 0x0, 0x0]);

    // Loading the frame and saving again reproduces it byte for byte.
    let decoded = Storage::from_sysex(&msg).expect("the frame must parse");
    assert_eq!(decoded.presets.len(), 1);
    assert_eq!(decoded.presets[0], Preset::default());
    assert_eq!(decoded.presets[0].name, b"Init Patch".to_vec());
    let again = decoded.to_sysex();
    assert_eq!(again, msg);
}

#[test]
fn nibble_payload_splits_every_image_byte() {
    let mut p = Preset::default();
    p.name = b"\x7Fmixed\x10bytes".to_vec();
    p.filter.cutoff = 12345.678f32.to_bits();
    let bank = Storage { presets: vec![p] };
    let msg = bank.to_sysex();
    let record = bank.presets[0].to_bytes();
    // The image places the first record right after the 16-byte header;
    // every image byte appears as its high nibble then its low nibble.
    for (i, &b) in record.iter().enumerate() {
        let hi = msg[4 + 2 * (16 + i)];
        let lo = msg[4 + 2 * (16 + i) + 1];
        assert_eq!(hi, b >> 4);
        assert_eq!(lo, b & 0x0F);
        assert_eq!((hi << 4) | lo, b);
    }
    // And the frame reconstitutes the same bank.
    let decoded = Storage::from_sysex(&msg).unwrap();
    assert_eq!(decoded.presets, bank.presets);
}

#[test]
fn multi_preset_bank_round_trips_in_order() {
    let mut bank = Storage { presets: Vec::new() };
    for i in 0..5u8 {
        let mut p = Preset::default();
        p.name = format!("Patch {}", i).into_bytes();
        p.filter.cutoff = (100.0f32 * (i as f32 + 1.0)).to_bits();
        bank.presets.push(p);
    }
    let decoded = Storage::from_sysex(&bank.to_sysex()).unwrap();
    assert_eq!(decoded.presets, bank.presets);
}

#[test]
fn oversized_bank_is_capped_at_twenty_presets() {
    let bank = Storage { presets: vec![Preset::default(); 23] };
    let msg = bank.to_sysex();
    assert_eq!(msg.len(), 8197);
    let decoded = Storage::from_sysex(&msg).unwrap();
    assert_eq!(decoded.presets.len(), 20);
}

#[test]
fn frames_with_wrong_envelope_bytes_are_rejected() {
    let good = one_preset_bank().to_sysex();
    assert!(Storage::from_sysex(&good).is_some());

    let mut bad = good.clone();
    bad[0] = 0xF1; // wrong start byte
    assert!(Storage::from_sysex(&bad).is_none());

    let mut bad = good.clone();
    bad[8196] = 0x00; // wrong end byte
    assert!(Storage::from_sysex(&bad).is_none());

    let mut bad = good.clone();
    bad[1] = 0x7C; // wrong vendor
    assert!(Storage::from_sysex(&bad).is_none());

    let mut bad = good.clone();
    bad[2] = 0x02; // wrong device
    assert!(Storage::from_sysex(&bad).is_none());

    let mut bad = good.clone();
    bad[3] = 0x01; // a dump request carries no bank
    assert!(Storage::from_sysex(&bad).is_none());
}

#[test]
fn frames_with_wrong_payload_length_are_rejected() {
    let good = one_preset_bank().to_sysex();

    let mut short = good.clone();
    short.remove(100); // payload one nibble short
    assert!(Storage::from_sysex(&short).is_none());

    let mut long = good.clone();
    long.insert(100, 0x0); // payload one nibble long
    assert!(Storage::from_sysex(&long).is_none());

    assert!(Storage::from_sysex(&[]).is_none());
    assert!(Storage::from_sysex(&[0xF0, 0x7D, 0x01, 0x02, 0xF7]).is_none());
}

#[test]
fn frames_with_wrong_magic_are_rejected() {
    let mut bad = one_preset_bank().to_sysex();
    bad[4] = 0x4; // first nibble of the magic word
    assert!(Storage::from_sysex(&bad).is_none());
}

#[test]
fn frames_with_impossible_preset_count_are_rejected() {
    let mut bad = one_preset_bank().to_sysex();
    // The count word starts at image byte 8: set it to 21, one more than
    // the image can hold.
    bad[4 + 16] = 21 >> 4;
    bad[4 + 17] = 21 & 0x0F;
    assert!(Storage::from_sysex(&bad).is_none());

    // 20 itself is still accepted (the padding decodes as empty presets).
    let mut edge = one_preset_bank().to_sysex();
    edge[4 + 16] = 20 >> 4;
    edge[4 + 17] = 20 & 0x0F;
    let decoded = Storage::from_sysex(&edge).unwrap();
    assert_eq!(decoded.presets.len(), 20);
}
