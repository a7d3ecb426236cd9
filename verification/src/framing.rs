//! The storage framer: a bank of presets to and from its transport frame.
//!
//! A bank is first laid out as a 4096-byte image (16-byte header, then one
//! 200-byte record per preset, zero padding). Every image byte is then
//! split into its high and low nibble so that all transported payload
//! bytes stay within 0x00..0x0F, and the 8192 nibble bytes are wrapped in
//! the start/vendor/device/command/end envelope. Decoding validates every
//! part of the envelope and of the header and returns nothing on any
//! mismatch; it never adopts a partially parsed bank.

use vstd::prelude::*;

use crate::bytes::{read_u32, u32_le_bytes, word_at, write_u32};
use crate::codec::{preset_view_of_bytes, preset_wire_bytes, zero_bytes};
use crate::protocol::{
    Preset, PresetView, Storage, CMD_WRITE_REQ, MAGIC, MANUFACTURER_ID, MAX_PRESETS, MODEL_ID,
    PRESET_SIZE, STORAGE_SIZE, SYSEX_END, SYSEX_START, VERSION,
};

verus! {

/// Every byte split into two: first its high nibble, then its low nibble.
pub open spec fn nibble_expand(b: Seq<u8>) -> Seq<u8> {
    Seq::new(
        b.len() * 2,
        |i: int|
            if i % 2 == 0 {
                ((b[i / 2] >> 4) & 0x0f) as u8
            } else {
                (b[i / 2] & 0x0f) as u8
            },
    )
}

/// Pairs of nibble bytes joined back into one byte each.
pub open spec fn nibble_combine(s: Seq<u8>) -> Seq<u8>
    recommends
        s.len() % 2 == 0,
{
    Seq::new((s.len() / 2) as nat, |i: int| ((s[2 * i] << 4) | (s[2 * i + 1] & 0x0f)) as u8)
}

/// Joining the split nibbles of any byte sequence gives the sequence back.
pub proof fn lemma_nibble_round_trip(b: Seq<u8>)
    ensures
        nibble_combine(nibble_expand(b)) == b,
{
    let n = nibble_expand(b);
    assert forall|i: int| 0 <= i < b.len() implies ((n[2 * i] << 4) | (n[2 * i + 1] & 0x0f)) as u8
        == b[i] by {
        let x = b[i];
        assert(((((x >> 4) & 0x0f) << 4) | ((x & 0x0f) & 0x0f)) == x) by (bit_vector);
    }
    assert(nibble_combine(n) =~= b);
}

/// How many presets of a bank the image carries: all of them, capped at
/// the 20 that fit the fixed image size.
pub open spec fn stored_count(s: Seq<PresetView>) -> int {
    if s.len() > 20 {
        20
    } else {
        s.len() as int
    }
}

/// The first `n` records of a bank, back to back.
pub open spec fn records_bytes(s: Seq<PresetView>, n: int) -> Seq<u8>
    decreases n,
{
    if n <= 0 {
        Seq::empty()
    } else {
        records_bytes(s, n - 1) + preset_wire_bytes(s[n - 1])
    }
}

/// Each record is exactly 200 bytes long.
pub proof fn lemma_preset_wire_len(v: PresetView)
    ensures
        preset_wire_bytes(v).len() == 200,
{
    assert(crate::codec::padded_name(v.name).len() == 32);
}

/// A run of `n` records is exactly `200 * n` bytes long.
pub proof fn lemma_records_len(s: Seq<PresetView>, n: int)
    requires
        0 <= n <= s.len(),
    ensures
        records_bytes(s, n).len() == 200 * n,
    decreases n,
{
    if n > 0 {
        lemma_records_len(s, n - 1);
        lemma_preset_wire_len(s[n - 1]);
    }
}

/// The 16-byte image header: magic, version, preset count, padding.
pub open spec fn image_header(count: u32) -> Seq<u8> {
    u32_le_bytes(MAGIC) + u32_le_bytes(VERSION) + u32_le_bytes(count) + u32_le_bytes(0)
}

/// The 4096-byte storage image of a bank: header, records, zero padding.
pub open spec fn storage_image(s: Seq<PresetView>) -> Seq<u8> {
    let body = image_header(stored_count(s) as u32) + records_bytes(s, stored_count(s));
    body + zero_bytes((4096 - body.len()) as nat)
}

/// The complete transport frame of a bank.
pub open spec fn sysex_frame(s: Seq<PresetView>) -> Seq<u8> {
    seq![SYSEX_START, MANUFACTURER_ID, MODEL_ID, CMD_WRITE_REQ] + nibble_expand(storage_image(s))
        + seq![SYSEX_END]
}

/// The image bytes carried by a frame's nibble payload.
pub open spec fn frame_data(msg: Seq<u8>) -> Seq<u8>
    recommends
        msg.len() == 8197,
{
    nibble_combine(msg.subrange(4, msg.len() - 1))
}

/// Whether a frame's envelope is acceptable: exactly one image payload
/// between the expected start, vendor, device, command and end bytes.
pub open spec fn frame_shape_ok(msg: Seq<u8>) -> bool {
    &&& msg.len() == 8197
    &&& msg[0] == SYSEX_START
    &&& msg[msg.len() - 1] == SYSEX_END
    &&& msg[1] == MANUFACTURER_ID
    &&& msg[2] == MODEL_ID
    &&& msg[3] == CMD_WRITE_REQ
}

/// Whether a frame decodes to a bank: the envelope is acceptable, the
/// image opens with the magic word, and the stored preset count fits the
/// image.
pub open spec fn frame_ok(msg: Seq<u8>) -> bool {
    &&& frame_shape_ok(msg)
    &&& word_at(frame_data(msg), 0) == MAGIC
    &&& word_at(frame_data(msg), 8) <= 20
}

/// The bank a valid frame decodes to.
pub open spec fn decoded_bank(msg: Seq<u8>) -> Seq<PresetView>
    recommends
        frame_ok(msg),
{
    let data = frame_data(msg);
    let n = word_at(data, 8) as int;
    Seq::new(n as nat, |i: int| preset_view_of_bytes(data.subrange(16 + 200 * i, 216 + 200 * i)))
}

impl Storage {
    /// Packs this bank into its transport frame: a 16-byte header and the
    /// presets (capped at the 20 that fit the image), zero-padded to 4096
    /// bytes, nibble-expanded and wrapped in the frame envelope.
    pub fn to_sysex(&self) -> (r: Vec<u8>)
        ensures
            r@ == sysex_frame(self@),
            r@.len() == 8197,
    {
        let count: usize = if self.presets.len() > MAX_PRESETS {
            MAX_PRESETS
        } else {
            self.presets.len()
        };
        proof {
            assert(self@.len() == self.presets@.len());
            assert(count as int == stored_count(self@));
        }

        let mut raw: Vec<u8> = Vec::new();
        write_u32(&mut raw, MAGIC);
        write_u32(&mut raw, VERSION);
        write_u32(&mut raw, count as u32);
        write_u32(&mut raw, 0);
        proof {
            assert(raw@ =~= image_header(count as u32));
        }

        let mut i: usize = 0;
        while i < count
            invariant
                i <= count,
                count <= self.presets@.len(),
                count as int == stored_count(self@),
                self@.len() == self.presets@.len(),
                raw@ == image_header(count as u32) + records_bytes(self@, i as int),
            decreases count - i,
        {
            let mut rec = self.presets[i].to_bytes();
            proof {
                assert(self@[i as int] == self.presets@[i as int]@);
            }
            raw.append(&mut rec);
            proof {
                assert(raw@ =~= image_header(count as u32) + records_bytes(self@, i + 1));
            }
            i = i + 1;
        }
        proof {
            lemma_records_len(self@, count as int);
        }

        let body_len = raw.len();
        while raw.len() < STORAGE_SIZE
            invariant
                body_len == 16 + 200 * stored_count(self@),
                body_len <= raw@.len() <= 4096,
                raw@ == raw@.subrange(0, body_len as int) + zero_bytes(
                    (raw@.len() - body_len) as nat,
                ),
                raw@.subrange(0, body_len as int) == image_header(
                    stored_count(self@) as u32,
                ) + records_bytes(self@, stored_count(self@)),
            decreases 4096 - raw@.len(),
        {
            let ghost pre = raw@;
            raw.push(0u8);
            proof {
                assert(raw@.subrange(0, body_len as int) =~= pre.subrange(0, body_len as int));
                assert(raw@ =~= raw@.subrange(0, body_len as int) + zero_bytes(
                    (raw@.len() - body_len) as nat,
                ));
            }
        }
        proof {
            assert(raw@ =~= storage_image(self@));
        }

        let mut msg: Vec<u8> = Vec::new();
        msg.push(SYSEX_START);
        msg.push(MANUFACTURER_ID);
        msg.push(MODEL_ID);
        msg.push(CMD_WRITE_REQ);
        proof {
            assert(msg@ =~= seq![SYSEX_START, MANUFACTURER_ID, MODEL_ID, CMD_WRITE_REQ]);
        }
        let mut k: usize = 0;
        while k < STORAGE_SIZE
            invariant
                k <= 4096,
                raw@.len() == 4096,
                raw@ == storage_image(self@),
                msg@ == seq![SYSEX_START, MANUFACTURER_ID, MODEL_ID, CMD_WRITE_REQ]
                    + nibble_expand(raw@.subrange(0, k as int)),
            decreases 4096 - k,
        {
            let byte = raw[k];
            msg.push((byte >> 4) & 0x0f);
            msg.push(byte & 0x0f);
            proof {
                assert(msg@ =~= seq![SYSEX_START, MANUFACTURER_ID, MODEL_ID, CMD_WRITE_REQ]
                    + nibble_expand(raw@.subrange(0, k + 1)));
            }
            k = k + 1;
        }
        msg.push(SYSEX_END);
        proof {
            assert(raw@.subrange(0, 4096) =~= raw@);
            assert(msg@ =~= sysex_frame(self@));
        }
        msg
    }

    /// Unpacks a transport frame back into a bank. Returns `None`, and
    /// nothing else, whenever any part of the frame fails validation: a
    /// wrong start, end, vendor, device or command byte, a payload that is
    /// not exactly 8192 nibble bytes, a missing magic word, or a stored
    /// preset count larger than the image can hold.
    pub fn from_sysex(msg: &[u8]) -> (r: Option<Storage>)
        ensures
            r is Some <==> frame_ok(msg@),
            r matches Some(s) ==> s@ == decoded_bank(msg@),
    {
        if msg.len() != 2 * STORAGE_SIZE + 5 {
            return None;
        }
        if msg[0] != SYSEX_START || msg[msg.len() - 1] != SYSEX_END {
            return None;
        }
        if msg[1] != MANUFACTURER_ID || msg[2] != MODEL_ID {
            return None;
        }
        if msg[3] != CMD_WRITE_REQ {
            return None;
        }

        let mut data: Vec<u8> = Vec::new();
        let mut i: usize = 4;
        while i < 2 * STORAGE_SIZE + 4
            invariant
                4 <= i <= 8196,
                i % 2 == 0,
                msg@.len() == 8197,
                data@ == nibble_combine(msg@.subrange(4, i as int)),
            decreases 8196 - i,
        {
            let high = msg[i];
            let low = msg[i + 1];
            data.push((high << 4) | (low & 0x0f));
            proof {
                assert(data@ =~= nibble_combine(msg@.subrange(4, i + 2)));
            }
            i = i + 2;
        }
        proof {
            assert(msg@.subrange(4, 8196) =~= msg@.subrange(4, msg@.len() - 1));
            assert(data@ == frame_data(msg@));
        }

        let mut offset: usize = 0;
        let magic = read_u32(data.as_slice(), &mut offset);
        if magic != MAGIC {
            return None;
        }
        let _version: u32 = read_u32(data.as_slice(), &mut offset);
        let num_presets = read_u32(data.as_slice(), &mut offset);
        if num_presets > MAX_PRESETS as u32 {
            return None;
        }
        let count = num_presets as usize;

        let mut presets: Vec<Preset> = Vec::new();
        let mut k: usize = 0;
        while k < count
            invariant
                k <= count,
                count <= 20,
                data@.len() == 4096,
                presets@.len() == k,
                forall|j: int|
                    0 <= j < k ==> presets@[j]@ == preset_view_of_bytes(
                        data@.subrange(16 + 200 * j, 216 + 200 * j),
                    ),
            decreases count - k,
        {
            let off = 16 + 200 * k;
            let rec = vstd::slice::slice_subrange(data.as_slice(), off, off + PRESET_SIZE);
            let p = Preset::from_bytes(rec);
            presets.push(p);
            k = k + 1;
        }

        let bank = Storage { presets };
        proof {
            assert(bank@ =~= decoded_bank(msg@));
        }
        Some(bank)
    }
}

/// Within a run of records, record `i` sits at offset `200 * i`.
proof fn lemma_records_slice(s: Seq<PresetView>, n: int, i: int)
    requires
        0 <= i < n <= s.len(),
    ensures
        records_bytes(s, n).subrange(200 * i, 200 * i + 200) == preset_wire_bytes(s[i]),
    decreases n,
{
    lemma_records_len(s, n);
    lemma_records_len(s, n - 1);
    lemma_preset_wire_len(s[n - 1]);
    if i == n - 1 {
        assert(records_bytes(s, n).subrange(200 * i, 200 * i + 200) =~= preset_wire_bytes(s[i]));
    } else {
        lemma_records_slice(s, n - 1, i);
        assert(records_bytes(s, n).subrange(200 * i, 200 * i + 200) =~= records_bytes(
            s,
            n - 1,
        ).subrange(200 * i, 200 * i + 200));
    }
}

/// Whether every name of a bank survives the 32-byte name field: it fits,
/// and carries no zero byte at either end.
pub open spec fn bank_names_wf(s: Seq<PresetView>) -> bool {
    forall|i: int|
        0 <= i < s.len() ==> {
            let name = #[trigger] s[i].name;
            &&& name.len() <= 32
            &&& (name.len() > 0 ==> name[0] != 0)
            &&& (name.len() > 0 ==> name[name.len() - 1] != 0)
        }
}

/// Saving a bank and loading the frame back yields the bank, exactly, for
/// any bank that fits the image (at most 20 presets) and whose names
/// survive the name field. The frame passes every validation it is later
/// held to.
pub proof fn lemma_bank_round_trip(s: Seq<PresetView>)
    requires
        s.len() <= 20,
        bank_names_wf(s),
    ensures
        frame_ok(sysex_frame(s)),
        decoded_bank(sysex_frame(s)) == s,
{
    let n = s.len() as int;
    let image = storage_image(s);
    let frame = sysex_frame(s);
    let hdr = image_header(n as u32);
    let recs = records_bytes(s, n);

    lemma_records_len(s, n);
    assert(image.len() == 4096);
    assert(frame.len() == 8197);

    // The payload denibbles back to the image.
    lemma_nibble_round_trip(image);
    assert(frame.subrange(4, frame.len() - 1) =~= nibble_expand(image));
    assert(frame_data(frame) == image);

    // The header words read back.
    assert(image.subrange(0, 4) =~= u32_le_bytes(MAGIC));
    crate::bytes::lemma_u32_le_round_trip(MAGIC);
    assert(word_at(image, 0) == MAGIC);
    assert(image.subrange(8, 12) =~= u32_le_bytes(n as u32));
    crate::bytes::lemma_u32_le_round_trip(n as u32);
    assert(word_at(image, 8) == n as u32);
    assert(frame_ok(frame));

    // Each stored record decodes back to its preset.
    let decoded = decoded_bank(frame);
    assert(decoded.len() == n);
    assert forall|i: int| 0 <= i < n implies decoded[i] == s[i] by {
        lemma_records_slice(s, n, i);
        lemma_records_len(s, n);
        assert(image.subrange(16 + 200 * i, 216 + 200 * i) =~= recs.subrange(
            200 * i,
            200 * i + 200,
        ));
        crate::codec::lemma_preset_round_trip(s[i]);
    }
    assert(decoded =~= s);
}

} // verus!
