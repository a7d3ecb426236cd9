//! The binary codec: one preset to and from its fixed 200-byte record.
//!
//! Every scalar is a fixed-width little-endian word, so encoding is exact
//! and decoding is total: a word outside an enumeration's defined set
//! coerces to that enumeration's fallback variant, and knob words are
//! carried through untouched whatever bits they hold. Only a buffer
//! shorter than one record is a caller-side error.

use vstd::prelude::*;

use crate::bytes::{read_u32, u32_le_bytes, word_at, write_u32};
use crate::bytes::lemma_u32_le_round_trip;
use crate::protocol::{
    lfo_waveform_code, lfo_waveform_of_u32, waveform_code, waveform_of_u32,
    DelaySettings, EnvSettings, FilterSettings, LfoSettings, LfoWaveform, OscSettings, Preset,
    PresetView, ReverbSettings, Waveform,
};

verus! {

/// The wire word of a switch: 1 for on, 0 for off.
pub open spec fn bool_word(b: bool) -> u32 {
    if b {
        1
    } else {
        0
    }
}

/// A run of `n` zero bytes.
pub open spec fn zero_bytes(n: nat) -> Seq<u8> {
    Seq::new(n, |i: int| 0u8)
}

/// The 32-byte name field: the name truncated to 32 bytes, zero-padded.
pub open spec fn padded_name(name: Seq<u8>) -> Seq<u8> {
    if name.len() >= 32 {
        name.subrange(0, 32)
    } else {
        name + zero_bytes((32 - name.len()) as nat)
    }
}

/// The name field with its leading zero bytes removed.
pub open spec fn trim_leading_zeros(b: Seq<u8>) -> Seq<u8>
    decreases b.len(),
{
    if b.len() > 0 && b[0] == 0 {
        trim_leading_zeros(b.subrange(1, b.len() as int))
    } else {
        b
    }
}

/// The name field with its trailing zero bytes removed.
pub open spec fn trim_trailing_zeros(b: Seq<u8>) -> Seq<u8>
    decreases b.len(),
{
    if b.len() > 0 && b[b.len() - 1] == 0 {
        trim_trailing_zeros(b.subrange(0, b.len() - 1))
    } else {
        b
    }
}

/// The name decoded from a 32-byte field: zero padding stripped from both
/// ends, interior bytes kept.
pub open spec fn trimmed_name(b: Seq<u8>) -> Seq<u8> {
    trim_trailing_zeros(trim_leading_zeros(b))
}

/// The 20 bytes of one oscillator: shape, level, octave, detune, vibrato.
pub open spec fn osc_bytes(o: OscSettings) -> Seq<u8> {
    u32_le_bytes(waveform_code(o.waveform)) + u32_le_bytes(o.level) + u32_le_bytes(o.octave)
        + u32_le_bytes(o.detune) + u32_le_bytes(bool_word(o.vibrato))
}

/// The 28 bytes of the filter: cutoff, resonance, envelope amount, then
/// the four envelope stages.
pub open spec fn filter_bytes(f: FilterSettings) -> Seq<u8> {
    u32_le_bytes(f.cutoff) + u32_le_bytes(f.resonance) + u32_le_bytes(f.env_amt) + u32_le_bytes(
        f.attack,
    ) + u32_le_bytes(f.decay) + u32_le_bytes(f.sustain) + u32_le_bytes(f.release)
}

/// The 16 bytes of an envelope: attack, decay, sustain, release.
pub open spec fn env_bytes(e: EnvSettings) -> Seq<u8> {
    u32_le_bytes(e.attack) + u32_le_bytes(e.decay) + u32_le_bytes(e.sustain) + u32_le_bytes(
        e.release,
    )
}

/// The 16 bytes of the low-frequency oscillator: frequency, shape, pitch
/// depth, filter depth.
pub open spec fn lfo_bytes(l: LfoSettings) -> Seq<u8> {
    u32_le_bytes(l.freq) + u32_le_bytes(lfo_waveform_code(l.waveform)) + u32_le_bytes(l.vib_amt)
        + u32_le_bytes(l.filt_amt)
}

/// The 16 bytes of the delay: time, feedback, mix, enable switch.
pub open spec fn delay_bytes(d: DelaySettings) -> Seq<u8> {
    u32_le_bytes(d.time) + u32_le_bytes(d.feedback) + u32_le_bytes(d.mix) + u32_le_bytes(
        bool_word(d.enabled),
    )
}

/// The 16 bytes of the reverb: size, damping, mix, enable switch.
pub open spec fn reverb_bytes(r: ReverbSettings) -> Seq<u8> {
    u32_le_bytes(r.size) + u32_le_bytes(r.damping) + u32_le_bytes(r.mix) + u32_le_bytes(
        bool_word(r.enabled),
    )
}

/// The full 200-byte record of one preset.
pub open spec fn preset_wire_bytes(v: PresetView) -> Seq<u8> {
    padded_name(v.name) + osc_bytes(v.osc1) + osc_bytes(v.osc2) + osc_bytes(v.osc3) + u32_le_bytes(
        v.noise,
    ) + u32_le_bytes(v.portamento) + filter_bytes(v.filter) + env_bytes(v.amp) + u32_le_bytes(
        bool_word(v.lfo_enabled),
    ) + lfo_bytes(v.lfo) + delay_bytes(v.delay) + reverb_bytes(v.reverb) + u32_le_bytes(0)
}

/// The oscillator stored at offset `k`.
pub open spec fn osc_at(b: Seq<u8>, k: int) -> OscSettings
    recommends
        0 <= k,
        k + 20 <= b.len(),
{
    OscSettings {
        waveform: waveform_of_u32(word_at(b, k)),
        level: word_at(b, k + 4),
        octave: word_at(b, k + 8),
        detune: word_at(b, k + 12),
        vibrato: word_at(b, k + 16) != 0,
    }
}

/// The filter stored at offset `k`.
pub open spec fn filter_at(b: Seq<u8>, k: int) -> FilterSettings
    recommends
        0 <= k,
        k + 28 <= b.len(),
{
    FilterSettings {
        cutoff: word_at(b, k),
        resonance: word_at(b, k + 4),
        env_amt: word_at(b, k + 8),
        attack: word_at(b, k + 12),
        decay: word_at(b, k + 16),
        sustain: word_at(b, k + 20),
        release: word_at(b, k + 24),
    }
}

/// The envelope stored at offset `k`.
pub open spec fn env_at(b: Seq<u8>, k: int) -> EnvSettings
    recommends
        0 <= k,
        k + 16 <= b.len(),
{
    EnvSettings {
        attack: word_at(b, k),
        decay: word_at(b, k + 4),
        sustain: word_at(b, k + 8),
        release: word_at(b, k + 12),
    }
}

/// The low-frequency oscillator stored at offset `k`.
pub open spec fn lfo_at(b: Seq<u8>, k: int) -> LfoSettings
    recommends
        0 <= k,
        k + 16 <= b.len(),
{
    LfoSettings {
        freq: word_at(b, k),
        waveform: lfo_waveform_of_u32(word_at(b, k + 4)),
        vib_amt: word_at(b, k + 8),
        filt_amt: word_at(b, k + 12),
    }
}

/// The delay stored at offset `k`.
pub open spec fn delay_at(b: Seq<u8>, k: int) -> DelaySettings
    recommends
        0 <= k,
        k + 16 <= b.len(),
{
    DelaySettings {
        time: word_at(b, k),
        feedback: word_at(b, k + 4),
        mix: word_at(b, k + 8),
        enabled: word_at(b, k + 12) != 0,
    }
}

/// The reverb stored at offset `k`.
pub open spec fn reverb_at(b: Seq<u8>, k: int) -> ReverbSettings
    recommends
        0 <= k,
        k + 16 <= b.len(),
{
    ReverbSettings {
        size: word_at(b, k),
        damping: word_at(b, k + 4),
        mix: word_at(b, k + 8),
        enabled: word_at(b, k + 12) != 0,
    }
}

/// The preset stored in the first 200 bytes of `b`.
pub open spec fn preset_view_of_bytes(b: Seq<u8>) -> PresetView
    recommends
        b.len() >= 200,
{
    PresetView {
        name: trimmed_name(b.subrange(0, 32)),
        osc1: osc_at(b, 32),
        osc2: osc_at(b, 52),
        osc3: osc_at(b, 72),
        noise: word_at(b, 92),
        portamento: word_at(b, 96),
        filter: filter_at(b, 100),
        amp: env_at(b, 128),
        lfo_enabled: word_at(b, 144) != 0,
        lfo: lfo_at(b, 148),
        delay: delay_at(b, 164),
        reverb: reverb_at(b, 180),
    }
}

/// Appends one oscillator's 20 bytes.
fn write_osc(buf: &mut Vec<u8>, o: &OscSettings)
    ensures
        final(buf)@ == old(buf)@ + osc_bytes(*o),
{
    write_u32(buf, o.waveform.code());
    write_u32(buf, o.level);
    write_u32(buf, o.octave);
    write_u32(buf, o.detune);
    write_u32(buf, if o.vibrato { 1 } else { 0 });
    proof {
        assert(buf@ =~= old(buf)@ + osc_bytes(*o));
    }
}

/// Appends the filter's 28 bytes.
fn write_filter(buf: &mut Vec<u8>, f: &FilterSettings)
    ensures
        final(buf)@ == old(buf)@ + filter_bytes(*f),
{
    write_u32(buf, f.cutoff);
    write_u32(buf, f.resonance);
    write_u32(buf, f.env_amt);
    write_u32(buf, f.attack);
    write_u32(buf, f.decay);
    write_u32(buf, f.sustain);
    write_u32(buf, f.release);
    proof {
        assert(buf@ =~= old(buf)@ + filter_bytes(*f));
    }
}

/// Appends an envelope's 16 bytes.
fn write_env(buf: &mut Vec<u8>, e: &EnvSettings)
    ensures
        final(buf)@ == old(buf)@ + env_bytes(*e),
{
    write_u32(buf, e.attack);
    write_u32(buf, e.decay);
    write_u32(buf, e.sustain);
    write_u32(buf, e.release);
    proof {
        assert(buf@ =~= old(buf)@ + env_bytes(*e));
    }
}

/// Appends the low-frequency oscillator's 16 bytes.
fn write_lfo(buf: &mut Vec<u8>, l: &LfoSettings)
    ensures
        final(buf)@ == old(buf)@ + lfo_bytes(*l),
{
    write_u32(buf, l.freq);
    write_u32(buf, l.waveform.code());
    write_u32(buf, l.vib_amt);
    write_u32(buf, l.filt_amt);
    proof {
        assert(buf@ =~= old(buf)@ + lfo_bytes(*l));
    }
}

/// Appends the delay's 16 bytes.
fn write_delay(buf: &mut Vec<u8>, d: &DelaySettings)
    ensures
        final(buf)@ == old(buf)@ + delay_bytes(*d),
{
    write_u32(buf, d.time);
    write_u32(buf, d.feedback);
    write_u32(buf, d.mix);
    write_u32(buf, if d.enabled { 1 } else { 0 });
    proof {
        assert(buf@ =~= old(buf)@ + delay_bytes(*d));
    }
}

/// Appends the reverb's 16 bytes.
fn write_reverb(buf: &mut Vec<u8>, r: &ReverbSettings)
    ensures
        final(buf)@ == old(buf)@ + reverb_bytes(*r),
{
    write_u32(buf, r.size);
    write_u32(buf, r.damping);
    write_u32(buf, r.mix);
    write_u32(buf, if r.enabled { 1 } else { 0 });
    proof {
        assert(buf@ =~= old(buf)@ + reverb_bytes(*r));
    }
}

/// Reads one oscillator, advancing the offset by 20.
fn read_osc(data: &[u8], offset: &mut usize) -> (r: OscSettings)
    requires
        *old(offset) + 20 <= data@.len(),
    ensures
        *final(offset) == *old(offset) + 20,
        r == osc_at(data@, *old(offset) as int),
{
    let waveform = Waveform::from(read_u32(data, offset));
    let level = read_u32(data, offset);
    let octave = read_u32(data, offset);
    let detune = read_u32(data, offset);
    let vibrato = read_u32(data, offset) != 0;
    OscSettings { waveform, level, octave, detune, vibrato }
}

/// Reads the filter, advancing the offset by 28.
fn read_filter(data: &[u8], offset: &mut usize) -> (r: FilterSettings)
    requires
        *old(offset) + 28 <= data@.len(),
    ensures
        *final(offset) == *old(offset) + 28,
        r == filter_at(data@, *old(offset) as int),
{
    FilterSettings {
        cutoff: read_u32(data, offset),
        resonance: read_u32(data, offset),
        env_amt: read_u32(data, offset),
        attack: read_u32(data, offset),
        decay: read_u32(data, offset),
        sustain: read_u32(data, offset),
        release: read_u32(data, offset),
    }
}

/// Reads an envelope, advancing the offset by 16.
fn read_env(data: &[u8], offset: &mut usize) -> (r: EnvSettings)
    requires
        *old(offset) + 16 <= data@.len(),
    ensures
        *final(offset) == *old(offset) + 16,
        r == env_at(data@, *old(offset) as int),
{
    EnvSettings {
        attack: read_u32(data, offset),
        decay: read_u32(data, offset),
        sustain: read_u32(data, offset),
        release: read_u32(data, offset),
    }
}

/// Reads the low-frequency oscillator, advancing the offset by 16.
fn read_lfo(data: &[u8], offset: &mut usize) -> (r: LfoSettings)
    requires
        *old(offset) + 16 <= data@.len(),
    ensures
        *final(offset) == *old(offset) + 16,
        r == lfo_at(data@, *old(offset) as int),
{
    let freq = read_u32(data, offset);
    let waveform = LfoWaveform::from(read_u32(data, offset));
    let vib_amt = read_u32(data, offset);
    let filt_amt = read_u32(data, offset);
    LfoSettings { freq, waveform, vib_amt, filt_amt }
}

/// Reads the delay, advancing the offset by 16.
fn read_delay(data: &[u8], offset: &mut usize) -> (r: DelaySettings)
    requires
        *old(offset) + 16 <= data@.len(),
    ensures
        *final(offset) == *old(offset) + 16,
        r == delay_at(data@, *old(offset) as int),
{
    let time = read_u32(data, offset);
    let feedback = read_u32(data, offset);
    let mix = read_u32(data, offset);
    let enabled = read_u32(data, offset) != 0;
    DelaySettings { time, feedback, mix, enabled }
}

/// Reads the reverb, advancing the offset by 16.
fn read_reverb(data: &[u8], offset: &mut usize) -> (r: ReverbSettings)
    requires
        *old(offset) + 16 <= data@.len(),
    ensures
        *final(offset) == *old(offset) + 16,
        r == reverb_at(data@, *old(offset) as int),
{
    let size = read_u32(data, offset);
    let damping = read_u32(data, offset);
    let mix = read_u32(data, offset);
    let enabled = read_u32(data, offset) != 0;
    ReverbSettings { size, damping, mix, enabled }
}

impl Preset {
    /// Serializes this preset to its 200-byte record.
    #[verifier::rlimit(100)]
    pub fn to_bytes(&self) -> (r: Vec<u8>)
        ensures
            r@ == preset_wire_bytes(self@),
            r@.len() == 200,
    {
        let mut buf: Vec<u8> = Vec::new();

        // Name field: at most 32 name bytes, zero-padded to 32.
        let nlen = if self.name.len() < 32 {
            self.name.len()
        } else {
            32
        };
        let mut i: usize = 0;
        while i < nlen
            invariant
                i <= nlen,
                nlen <= self.name@.len(),
                nlen == if self.name@.len() < 32 { self.name@.len() as int } else { 32int },
                buf@ == self.name@.subrange(0, i as int),
            decreases nlen - i,
        {
            buf.push(self.name[i]);
            proof {
                assert(buf@ =~= self.name@.subrange(0, i + 1));
            }
            i = i + 1;
        }
        while i < 32
            invariant
                nlen <= i <= 32,
                nlen == if self.name@.len() < 32 { self.name@.len() as int } else { 32int },
                buf@.len() == i,
                buf@ == self.name@.subrange(0, nlen as int) + zero_bytes((i - nlen) as nat),
            decreases 32 - i,
        {
            buf.push(0u8);
            proof {
                assert(buf@ =~= self.name@.subrange(0, nlen as int) + zero_bytes(
                    (i + 1 - nlen) as nat,
                ));
            }
            i = i + 1;
        }
        proof {
            assert(buf@ =~= padded_name(self@.name));
        }

        write_osc(&mut buf, &self.osc1);
        write_osc(&mut buf, &self.osc2);
        write_osc(&mut buf, &self.osc3);
        write_u32(&mut buf, self.noise);
        write_u32(&mut buf, self.portamento);
        write_filter(&mut buf, &self.filter);
        write_env(&mut buf, &self.amp);
        write_u32(&mut buf, if self.lfo_enabled { 1 } else { 0 });
        write_lfo(&mut buf, &self.lfo);
        write_delay(&mut buf, &self.delay);
        write_reverb(&mut buf, &self.reverb);
        write_u32(&mut buf, 0);

        proof {
            assert(buf@ =~= preset_wire_bytes(self@));
        }
        buf
    }

    /// Decodes the preset stored in the first 200 bytes of `data`.
    pub fn from_bytes(data: &[u8]) -> (r: Preset)
        requires
            data@.len() >= 200,
        ensures
            r@ == preset_view_of_bytes(data@),
    {
        // Name: the 32-byte field with zero padding stripped at both ends.
        let mut start: usize = 0;
        while start < 32 && data[start] == 0
            invariant
                start <= 32,
                data@.len() >= 200,
                forall|j: int| 0 <= j < start ==> data@[j] == 0,
            decreases 32 - start,
        {
            start = start + 1;
        }
        let mut end: usize = 32;
        while end > start && data[end - 1] == 0
            invariant
                start <= end <= 32,
                data@.len() >= 200,
                forall|j: int| end <= j < 32 ==> data@[j] == 0,
            decreases end,
        {
            end = end - 1;
        }
        let mut name: Vec<u8> = Vec::new();
        let mut i: usize = start;
        while i < end
            invariant
                start <= i <= end,
                end <= 32,
                data@.len() >= 200,
                name@ == data@.subrange(start as int, i as int),
            decreases end - i,
        {
            name.push(data[i]);
            proof {
                assert(name@ =~= data@.subrange(start as int, i + 1));
            }
            i = i + 1;
        }
        proof {
            let field = data@.subrange(0, 32);
            assert(forall|j: int| 0 <= j < start ==> field[j] == 0);
            assert(forall|j: int| end <= j < 32 ==> field[j] == 0);
            if start < end {
                assert(field[start as int] != 0);
                assert(field[end - 1] != 0);
            }
            lemma_trimmed_between(field, start as int, end as int);
            assert(name@ =~= field.subrange(start as int, end as int));
        }

        let mut offset: usize = 32;
        let osc1 = read_osc(data, &mut offset);
        let osc2 = read_osc(data, &mut offset);
        let osc3 = read_osc(data, &mut offset);
        let noise = read_u32(data, &mut offset);
        let portamento = read_u32(data, &mut offset);
        let filter = read_filter(data, &mut offset);
        let amp = read_env(data, &mut offset);
        let lfo_enabled = read_u32(data, &mut offset) != 0;
        let lfo = read_lfo(data, &mut offset);
        let delay = read_delay(data, &mut offset);
        let reverb = read_reverb(data, &mut offset);

        let r = Preset {
            name,
            osc1,
            osc2,
            osc3,
            noise,
            portamento,
            filter,
            amp,
            lfo_enabled,
            lfo,
            delay,
            reverb,
        };
        proof {
            assert(r@ =~= preset_view_of_bytes(data@));
        }
        r
    }
}

/// Stripping leading zeros of a field whose first `s` bytes are zero and
/// whose byte at `s`, if any, is not, keeps exactly the bytes from `s` on.
proof fn lemma_trim_leading_at(b: Seq<u8>, s: int)
    requires
        0 <= s <= b.len(),
        forall|i: int| 0 <= i < s ==> b[i] == 0,
        s < b.len() ==> b[s] != 0,
    ensures
        trim_leading_zeros(b) =~= b.subrange(s, b.len() as int),
    decreases s,
{
    if s == 0 {
        if b.len() > 0 && b[0] == 0 {
            assert(b[0] != 0);
        }
        assert(trim_leading_zeros(b) =~= b.subrange(0, b.len() as int));
    } else {
        assert(b[0] == 0);
        let tail = b.subrange(1, b.len() as int);
        lemma_trim_leading_at(tail, s - 1);
        assert(tail.subrange(s - 1, tail.len() as int) =~= b.subrange(s, b.len() as int));
    }
}

/// Stripping trailing zeros of a field whose bytes from `e` on are zero
/// and whose byte at `e - 1`, if any, is not, keeps exactly the first `e`
/// bytes.
proof fn lemma_trim_trailing_at(b: Seq<u8>, e: int)
    requires
        0 <= e <= b.len(),
        forall|j: int| e <= j < b.len() ==> b[j] == 0,
        e > 0 ==> b[e - 1] != 0,
    ensures
        trim_trailing_zeros(b) =~= b.subrange(0, e),
    decreases b.len(),
{
    if b.len() == 0 {
    } else if e == b.len() {
        assert(b[b.len() - 1] != 0);
        assert(trim_trailing_zeros(b) =~= b.subrange(0, e));
    } else {
        assert(b[b.len() - 1] == 0);
        let front = b.subrange(0, b.len() - 1);
        assert(forall|j: int| e <= j < front.len() ==> front[j] == 0);
        lemma_trim_trailing_at(front, e);
        assert(front.subrange(0, e) =~= b.subrange(0, e));
    }
}

/// A field that is zero before `s`, zero from `e` on, and nonzero at both
/// `s` and `e - 1` when `s < e`, trims to exactly its bytes in `s..e`.
/// With `s == e` the whole field must be zero and it trims to nothing.
pub proof fn lemma_trimmed_between(b: Seq<u8>, s: int, e: int)
    requires
        0 <= s <= e <= b.len(),
        forall|i: int| 0 <= i < s ==> b[i] == 0,
        forall|j: int| e <= j < b.len() ==> b[j] == 0,
        s < e ==> b[s] != 0,
        s < e ==> b[e - 1] != 0,
        s == e ==> s == b.len(),
    ensures
        trimmed_name(b) =~= b.subrange(s, e),
{
    if s == e {
        lemma_trim_leading_at(b, s);
        let rest = b.subrange(s, b.len() as int);
        assert(rest.len() == 0);
        assert(trim_trailing_zeros(rest) =~= b.subrange(s, e));
    } else {
        lemma_trim_leading_at(b, s);
        let rest = b.subrange(s, b.len() as int);
        assert(forall|j: int| e - s <= j < rest.len() ==> rest[j] == 0);
        assert(rest[e - s - 1] != 0);
        lemma_trim_trailing_at(rest, e - s);
        assert(rest.subrange(0, e - s) =~= b.subrange(s, e));
    }
}

/// Decoding an encoded oscillator section recovers the oscillator.
proof fn lemma_osc_section(b: Seq<u8>, k: int, o: OscSettings)
    requires
        0 <= k,
        k + 20 <= b.len(),
        b.subrange(k, k + 20) == osc_bytes(o),
    ensures
        osc_at(b, k) == o,
{
    let sec = osc_bytes(o);
    assert(b.subrange(k, k + 4) =~= sec.subrange(0, 4));
    assert(sec.subrange(0, 4) =~= u32_le_bytes(waveform_code(o.waveform)));
    lemma_u32_le_round_trip(waveform_code(o.waveform));
    assert(b.subrange(k + 4, k + 8) =~= sec.subrange(4, 8));
    assert(sec.subrange(4, 8) =~= u32_le_bytes(o.level));
    lemma_u32_le_round_trip(o.level);
    assert(b.subrange(k + 8, k + 12) =~= sec.subrange(8, 12));
    assert(sec.subrange(8, 12) =~= u32_le_bytes(o.octave));
    lemma_u32_le_round_trip(o.octave);
    assert(b.subrange(k + 12, k + 16) =~= sec.subrange(12, 16));
    assert(sec.subrange(12, 16) =~= u32_le_bytes(o.detune));
    lemma_u32_le_round_trip(o.detune);
    assert(b.subrange(k + 16, k + 20) =~= sec.subrange(16, 20));
    assert(sec.subrange(16, 20) =~= u32_le_bytes(bool_word(o.vibrato)));
    lemma_u32_le_round_trip(bool_word(o.vibrato));
}

/// Decoding an encoded filter section recovers the filter.
proof fn lemma_filter_section(b: Seq<u8>, k: int, f: FilterSettings)
    requires
        0 <= k,
        k + 28 <= b.len(),
        b.subrange(k, k + 28) == filter_bytes(f),
    ensures
        filter_at(b, k) == f,
{
    let sec = filter_bytes(f);
    assert(b.subrange(k, k + 4) =~= sec.subrange(0, 4));
    assert(sec.subrange(0, 4) =~= u32_le_bytes(f.cutoff));
    lemma_u32_le_round_trip(f.cutoff);
    assert(b.subrange(k + 4, k + 8) =~= sec.subrange(4, 8));
    assert(sec.subrange(4, 8) =~= u32_le_bytes(f.resonance));
    lemma_u32_le_round_trip(f.resonance);
    assert(b.subrange(k + 8, k + 12) =~= sec.subrange(8, 12));
    assert(sec.subrange(8, 12) =~= u32_le_bytes(f.env_amt));
    lemma_u32_le_round_trip(f.env_amt);
    assert(b.subrange(k + 12, k + 16) =~= sec.subrange(12, 16));
    assert(sec.subrange(12, 16) =~= u32_le_bytes(f.attack));
    lemma_u32_le_round_trip(f.attack);
    assert(b.subrange(k + 16, k + 20) =~= sec.subrange(16, 20));
    assert(sec.subrange(16, 20) =~= u32_le_bytes(f.decay));
    lemma_u32_le_round_trip(f.decay);
    assert(b.subrange(k + 20, k + 24) =~= sec.subrange(20, 24));
    assert(sec.subrange(20, 24) =~= u32_le_bytes(f.sustain));
    lemma_u32_le_round_trip(f.sustain);
    assert(b.subrange(k + 24, k + 28) =~= sec.subrange(24, 28));
    assert(sec.subrange(24, 28) =~= u32_le_bytes(f.release));
    lemma_u32_le_round_trip(f.release);
}

/// Decoding an encoded envelope section recovers the envelope.
proof fn lemma_env_section(b: Seq<u8>, k: int, e: EnvSettings)
    requires
        0 <= k,
        k + 16 <= b.len(),
        b.subrange(k, k + 16) == env_bytes(e),
    ensures
        env_at(b, k) == e,
{
    let sec = env_bytes(e);
    assert(b.subrange(k, k + 4) =~= sec.subrange(0, 4));
    assert(sec.subrange(0, 4) =~= u32_le_bytes(e.attack));
    lemma_u32_le_round_trip(e.attack);
    assert(b.subrange(k + 4, k + 8) =~= sec.subrange(4, 8));
    assert(sec.subrange(4, 8) =~= u32_le_bytes(e.decay));
    lemma_u32_le_round_trip(e.decay);
    assert(b.subrange(k + 8, k + 12) =~= sec.subrange(8, 12));
    assert(sec.subrange(8, 12) =~= u32_le_bytes(e.sustain));
    lemma_u32_le_round_trip(e.sustain);
    assert(b.subrange(k + 12, k + 16) =~= sec.subrange(12, 16));
    assert(sec.subrange(12, 16) =~= u32_le_bytes(e.release));
    lemma_u32_le_round_trip(e.release);
}

/// Decoding an encoded low-frequency oscillator section recovers it.
proof fn lemma_lfo_section(b: Seq<u8>, k: int, l: LfoSettings)
    requires
        0 <= k,
        k + 16 <= b.len(),
        b.subrange(k, k + 16) == lfo_bytes(l),
    ensures
        lfo_at(b, k) == l,
{
    let sec = lfo_bytes(l);
    assert(b.subrange(k, k + 4) =~= sec.subrange(0, 4));
    assert(sec.subrange(0, 4) =~= u32_le_bytes(l.freq));
    lemma_u32_le_round_trip(l.freq);
    assert(b.subrange(k + 4, k + 8) =~= sec.subrange(4, 8));
    assert(sec.subrange(4, 8) =~= u32_le_bytes(lfo_waveform_code(l.waveform)));
    lemma_u32_le_round_trip(lfo_waveform_code(l.waveform));
    assert(b.subrange(k + 8, k + 12) =~= sec.subrange(8, 12));
    assert(sec.subrange(8, 12) =~= u32_le_bytes(l.vib_amt));
    lemma_u32_le_round_trip(l.vib_amt);
    assert(b.subrange(k + 12, k + 16) =~= sec.subrange(12, 16));
    assert(sec.subrange(12, 16) =~= u32_le_bytes(l.filt_amt));
    lemma_u32_le_round_trip(l.filt_amt);
}

/// Decoding an encoded delay section recovers the delay.
proof fn lemma_delay_section(b: Seq<u8>, k: int, d: DelaySettings)
    requires
        0 <= k,
        k + 16 <= b.len(),
        b.subrange(k, k + 16) == delay_bytes(d),
    ensures
        delay_at(b, k) == d,
{
    let sec = delay_bytes(d);
    assert(b.subrange(k, k + 4) =~= sec.subrange(0, 4));
    assert(sec.subrange(0, 4) =~= u32_le_bytes(d.time));
    lemma_u32_le_round_trip(d.time);
    assert(b.subrange(k + 4, k + 8) =~= sec.subrange(4, 8));
    assert(sec.subrange(4, 8) =~= u32_le_bytes(d.feedback));
    lemma_u32_le_round_trip(d.feedback);
    assert(b.subrange(k + 8, k + 12) =~= sec.subrange(8, 12));
    assert(sec.subrange(8, 12) =~= u32_le_bytes(d.mix));
    lemma_u32_le_round_trip(d.mix);
    assert(b.subrange(k + 12, k + 16) =~= sec.subrange(12, 16));
    assert(sec.subrange(12, 16) =~= u32_le_bytes(bool_word(d.enabled)));
    lemma_u32_le_round_trip(bool_word(d.enabled));
}

/// Decoding an encoded reverb section recovers the reverb.
proof fn lemma_reverb_section(b: Seq<u8>, k: int, r: ReverbSettings)
    requires
        0 <= k,
        k + 16 <= b.len(),
        b.subrange(k, k + 16) == reverb_bytes(r),
    ensures
        reverb_at(b, k) == r,
{
    let sec = reverb_bytes(r);
    assert(b.subrange(k, k + 4) =~= sec.subrange(0, 4));
    assert(sec.subrange(0, 4) =~= u32_le_bytes(r.size));
    lemma_u32_le_round_trip(r.size);
    assert(b.subrange(k + 4, k + 8) =~= sec.subrange(4, 8));
    assert(sec.subrange(4, 8) =~= u32_le_bytes(r.damping));
    lemma_u32_le_round_trip(r.damping);
    assert(b.subrange(k + 8, k + 12) =~= sec.subrange(8, 12));
    assert(sec.subrange(8, 12) =~= u32_le_bytes(r.mix));
    lemma_u32_le_round_trip(r.mix);
    assert(b.subrange(k + 12, k + 16) =~= sec.subrange(12, 16));
    assert(sec.subrange(12, 16) =~= u32_le_bytes(bool_word(r.enabled)));
    lemma_u32_le_round_trip(bool_word(r.enabled));
}

/// Where each section of an encoded record sits: the name field first,
/// then the three oscillators, the two lone words, filter, envelope, the
/// low-frequency oscillator switch and settings, the two effects, and the
/// padding word.
#[verifier::spinoff_prover]
#[verifier::rlimit(100)]
proof fn lemma_wire_sections_a(v: PresetView)
    ensures
        preset_wire_bytes(v).len() == 200,
        preset_wire_bytes(v).subrange(0, 32) == padded_name(v.name),
        preset_wire_bytes(v).subrange(32, 52) == osc_bytes(v.osc1),
        preset_wire_bytes(v).subrange(52, 72) == osc_bytes(v.osc2),
        preset_wire_bytes(v).subrange(72, 92) == osc_bytes(v.osc3),
        preset_wire_bytes(v).subrange(92, 96) == u32_le_bytes(v.noise),
        preset_wire_bytes(v).subrange(96, 100) == u32_le_bytes(v.portamento),
{
    let enc = preset_wire_bytes(v);
    assert(padded_name(v.name).len() == 32);
    assert(enc.subrange(0, 32) =~= padded_name(v.name));
    assert(enc.subrange(32, 52) =~= osc_bytes(v.osc1));
    assert(enc.subrange(52, 72) =~= osc_bytes(v.osc2));
    assert(enc.subrange(72, 92) =~= osc_bytes(v.osc3));
    assert(enc.subrange(92, 96) =~= u32_le_bytes(v.noise));
    assert(enc.subrange(96, 100) =~= u32_le_bytes(v.portamento));
}

/// The remaining sections of an encoded record.
#[verifier::spinoff_prover]
#[verifier::rlimit(100)]
proof fn lemma_wire_sections_b(v: PresetView)
    ensures
        preset_wire_bytes(v).subrange(100, 128) == filter_bytes(v.filter),
        preset_wire_bytes(v).subrange(128, 144) == env_bytes(v.amp),
        preset_wire_bytes(v).subrange(144, 148) == u32_le_bytes(bool_word(v.lfo_enabled)),
        preset_wire_bytes(v).subrange(148, 164) == lfo_bytes(v.lfo),
        preset_wire_bytes(v).subrange(164, 180) == delay_bytes(v.delay),
        preset_wire_bytes(v).subrange(180, 196) == reverb_bytes(v.reverb),
{
    let enc = preset_wire_bytes(v);
    assert(padded_name(v.name).len() == 32);
    assert(enc.subrange(100, 128) =~= filter_bytes(v.filter));
    assert(enc.subrange(128, 144) =~= env_bytes(v.amp));
    assert(enc.subrange(144, 148) =~= u32_le_bytes(bool_word(v.lfo_enabled)));
    assert(enc.subrange(148, 164) =~= lfo_bytes(v.lfo));
    assert(enc.subrange(164, 180) =~= delay_bytes(v.delay));
    assert(enc.subrange(180, 196) =~= reverb_bytes(v.reverb));
}

/// An encoded name field trims back to the name itself, provided the name
/// fits the field and has no zero byte at either end.
proof fn lemma_name_round_trip(name: Seq<u8>)
    requires
        name.len() <= 32,
        name.len() > 0 ==> name[0] != 0,
        name.len() > 0 ==> name[name.len() - 1] != 0,
    ensures
        trimmed_name(padded_name(name)) == name,
{
    let field = padded_name(name);
    assert(field.len() == 32);
    if name.len() == 0 {
        assert(forall|j: int| 0 <= j < 32 ==> field[j] == 0);
        lemma_trimmed_between(field, 32, 32);
        assert(trimmed_name(field) =~= name);
    } else {
        let n = name.len() as int;
        assert(field[0] == name[0]);
        assert(field[n - 1] == name[n - 1]);
        assert(forall|j: int| n <= j < 32 ==> field[j] == 0);
        lemma_trimmed_between(field, 0, n);
        assert(trimmed_name(field) =~= name);
    }
}

/// Decoding an encoded record recovers the preset exactly, provided the
/// name already fits the 32-byte field and carries no zero byte at either
/// end (such bytes are indistinguishable from padding).
pub proof fn lemma_preset_round_trip(v: PresetView)
    requires
        v.name.len() <= 32,
        v.name.len() > 0 ==> v.name[0] != 0,
        v.name.len() > 0 ==> v.name[v.name.len() - 1] != 0,
    ensures
        preset_view_of_bytes(preset_wire_bytes(v)) == v,
{
    let enc = preset_wire_bytes(v);
    lemma_wire_sections_a(v);
    lemma_wire_sections_b(v);
    lemma_name_round_trip(v.name);
    lemma_osc_section(enc, 32, v.osc1);
    lemma_osc_section(enc, 52, v.osc2);
    lemma_osc_section(enc, 72, v.osc3);
    lemma_u32_le_round_trip(v.noise);
    lemma_u32_le_round_trip(v.portamento);
    lemma_filter_section(enc, 100, v.filter);
    lemma_env_section(enc, 128, v.amp);
    lemma_u32_le_round_trip(bool_word(v.lfo_enabled));
    lemma_lfo_section(enc, 148, v.lfo);
    lemma_delay_section(enc, 164, v.delay);
    lemma_reverb_section(enc, 180, v.reverb);
    assert(preset_view_of_bytes(enc) =~= v);
}

} // verus!
