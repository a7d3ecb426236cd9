//! The preset data model and the constants of the wire format.
//!
//! A preset serializes to a record of exactly [`PRESET_SIZE`] bytes: a
//! 32-byte name field followed by fixed-width little-endian words, one per
//! knob or switch. Continuous knobs are kept as the raw 32-bit words of
//! the wire (the bit patterns of single-precision floats); enumerations
//! and switches are kept as proper Rust types and serialize as words too.

use vstd::prelude::*;

verus! {

/// First byte of every transport frame.
pub const SYSEX_START: u8 = 0xF0;

/// Last byte of every transport frame.
pub const SYSEX_END: u8 = 0xF7;

/// Vendor identifier expected in byte 1 of a frame.
pub const MANUFACTURER_ID: u8 = 0x7D;

/// Device identifier expected in byte 2 of a frame.
pub const MODEL_ID: u8 = 0x01;

/// Command: ask the device for a full bank dump (empty payload).
pub const CMD_DUMP_REQ: u8 = 0x01;

/// Command: write a bank (payload is the nibble-encoded image).
pub const CMD_WRITE_REQ: u8 = 0x02;

/// Command: the device acknowledges a successful write (empty payload).
pub const CMD_WRITE_SUCCESS: u8 = 0x03;

/// Command: the device reports a failed write (payload is one error code byte).
pub const CMD_WRITE_ERROR: u8 = 0x04;

/// Magic word opening every storage image.
pub const MAGIC: u32 = 0x50445350;

/// Format version written into every storage image.
pub const VERSION: u32 = 7;

/// Size in bytes of a storage image before nibble expansion.
pub const STORAGE_SIZE: usize = 4096;

/// Size in bytes of one serialized preset record.
pub const PRESET_SIZE: usize = 200;

/// Largest preset count that fits a storage image: a 16-byte header
/// followed by 200-byte records inside 4096 bytes leaves room for 20.
pub const MAX_PRESETS: usize = 20;

/// Word holding 0.0 in single-precision bits.
pub const BITS_ZERO: u32 = 0x0000_0000;

/// Word holding 1.0 in single-precision bits.
pub const BITS_ONE: u32 = 0x3F80_0000;

/// Word holding 0.5 in single-precision bits.
pub const BITS_HALF: u32 = 0x3F00_0000;

/// Word holding 20000.0 in single-precision bits, the fully open filter.
pub const BITS_FULL_CUTOFF: u32 = 0x469C_4000;

/// Word holding 0.01 in single-precision bits.
pub const BITS_HUNDREDTH: u32 = 0x3C23_D70A;

/// Word holding 0.1 in single-precision bits.
pub const BITS_TENTH: u32 = 0x3DCC_CCCD;

/// Audio oscillator shape. Stored on the wire as a word; any word outside
/// the defined set decodes as `Noise`.
#[derive(Clone, Copy, Debug, PartialEq, Eq, Structural)]
pub enum Waveform {
    Sine,
    Triangle,
    Saw,
    Square,
    Noise,
}

/// The wire word of an oscillator shape.
pub open spec fn waveform_code(w: Waveform) -> u32 {
    match w {
        Waveform::Sine => 0,
        Waveform::Triangle => 1,
        Waveform::Saw => 2,
        Waveform::Square => 3,
        Waveform::Noise => 4,
    }
}

/// The oscillator shape a wire word decodes to; total over all words.
pub open spec fn waveform_of_u32(val: u32) -> Waveform {
    if val == 0 {
        Waveform::Sine
    } else if val == 1 {
        Waveform::Triangle
    } else if val == 2 {
        Waveform::Saw
    } else if val == 3 {
        Waveform::Square
    } else {
        Waveform::Noise
    }
}

impl Waveform {
    /// The wire word of this shape.
    pub fn code(self) -> (r: u32)
        ensures
            r == waveform_code(self),
    {
        match self {
            Waveform::Sine => 0,
            Waveform::Triangle => 1,
            Waveform::Saw => 2,
            Waveform::Square => 3,
            Waveform::Noise => 4,
        }
    }
}

impl From<u32> for Waveform {
    /// Decodes a wire word; unknown words coerce to `Noise`.
    fn from(val: u32) -> (r: Waveform) {
        match val {
            0 => Waveform::Sine,
            1 => Waveform::Triangle,
            2 => Waveform::Saw,
            3 => Waveform::Square,
            _ => Waveform::Noise,
        }
    }
}

impl vstd::std_specs::convert::FromSpecImpl<u32> for Waveform {
    open spec fn obeys_from_spec() -> bool {
        true
    }

    open spec fn from_spec(val: u32) -> Waveform {
        waveform_of_u32(val)
    }
}

/// Low-frequency oscillator shape. Stored on the wire as a word; any word
/// outside the defined set decodes as `Square`.
#[derive(Clone, Copy, Debug, PartialEq, Eq, Structural)]
pub enum LfoWaveform {
    Sine,
    Triangle,
    Saw,
    Square,
}

/// The wire word of a low-frequency oscillator shape.
pub open spec fn lfo_waveform_code(w: LfoWaveform) -> u32 {
    match w {
        LfoWaveform::Sine => 0,
        LfoWaveform::Triangle => 1,
        LfoWaveform::Saw => 2,
        LfoWaveform::Square => 3,
    }
}

/// The low-frequency oscillator shape a wire word decodes to.
pub open spec fn lfo_waveform_of_u32(val: u32) -> LfoWaveform {
    if val == 0 {
        LfoWaveform::Sine
    } else if val == 1 {
        LfoWaveform::Triangle
    } else if val == 2 {
        LfoWaveform::Saw
    } else {
        LfoWaveform::Square
    }
}

impl LfoWaveform {
    /// The wire word of this shape.
    pub fn code(self) -> (r: u32)
        ensures
            r == lfo_waveform_code(self),
    {
        match self {
            LfoWaveform::Sine => 0,
            LfoWaveform::Triangle => 1,
            LfoWaveform::Saw => 2,
            LfoWaveform::Square => 3,
        }
    }
}

impl From<u32> for LfoWaveform {
    /// Decodes a wire word; unknown words coerce to `Square`.
    fn from(val: u32) -> (r: LfoWaveform) {
        match val {
            0 => LfoWaveform::Sine,
            1 => LfoWaveform::Triangle,
            2 => LfoWaveform::Saw,
            _ => LfoWaveform::Square,
        }
    }
}

impl vstd::std_specs::convert::FromSpecImpl<u32> for LfoWaveform {
    open spec fn obeys_from_spec() -> bool {
        true
    }

    open spec fn from_spec(val: u32) -> LfoWaveform {
        lfo_waveform_of_u32(val)
    }
}

impl Default for LfoWaveform {
    /// The default shape is `Sine`.
    fn default() -> (r: LfoWaveform)
        ensures
            r == LfoWaveform::Sine,
    {
        LfoWaveform::Sine
    }
}

/// One oscillator of the voice.
#[derive(Clone, Copy, Debug, PartialEq, Eq, Structural)]
pub struct OscSettings {
    /// Shape of the generated wave.
    pub waveform: Waveform,
    /// Output gain word (float bits, nominally 0..1).
    pub level: u32,
    /// Octave shift word (float bits, nominally -2..2).
    pub octave: u32,
    /// Detune offset word (float bits, cents-like).
    pub detune: u32,
    /// Whether the shared vibrato oscillator modulates this pitch.
    pub vibrato: bool,
}

impl Default for OscSettings {
    /// A full-level saw wave with no shift, detune or vibrato.
    fn default() -> (r: OscSettings)
        ensures
            r == default_osc(),
    {
        OscSettings {
            waveform: Waveform::Saw,
            level: BITS_ONE,
            octave: BITS_ZERO,
            detune: BITS_ZERO,
            vibrato: false,
        }
    }
}

/// The default oscillator: a full-level saw wave.
pub open spec fn default_osc() -> OscSettings {
    OscSettings {
        waveform: Waveform::Saw,
        level: BITS_ONE,
        octave: BITS_ZERO,
        detune: BITS_ZERO,
        vibrato: false,
    }
}

/// The filter stage and its envelope.
#[derive(Clone, Copy, Debug, PartialEq, Eq, Structural)]
pub struct FilterSettings {
    /// Cutoff frequency word (float bits, Hz).
    pub cutoff: u32,
    /// Resonance word (float bits, nominally 0..1).
    pub resonance: u32,
    /// Envelope amount word (float bits, Hz offset).
    pub env_amt: u32,
    /// Envelope attack time word (float bits, seconds).
    pub attack: u32,
    /// Envelope decay time word (float bits, seconds).
    pub decay: u32,
    /// Envelope sustain level word (float bits, 0..1).
    pub sustain: u32,
    /// Envelope release time word (float bits, seconds).
    pub release: u32,
}

impl Default for FilterSettings {
    /// Fully open, no resonance, and a flat envelope held at full sustain.
    fn default() -> (r: FilterSettings)
        ensures
            r == default_filter(),
    {
        FilterSettings {
            cutoff: BITS_FULL_CUTOFF,
            resonance: BITS_ZERO,
            env_amt: BITS_ZERO,
            attack: BITS_ZERO,
            decay: BITS_ZERO,
            sustain: BITS_ONE,
            release: BITS_ZERO,
        }
    }
}

/// The default filter: fully open with a flat envelope.
pub open spec fn default_filter() -> FilterSettings {
    FilterSettings {
        cutoff: BITS_FULL_CUTOFF,
        resonance: BITS_ZERO,
        env_amt: BITS_ZERO,
        attack: BITS_ZERO,
        decay: BITS_ZERO,
        sustain: BITS_ONE,
        release: BITS_ZERO,
    }
}

/// An attack/decay/sustain/release envelope.
#[derive(Clone, Copy, Debug, PartialEq, Eq, Structural)]
pub struct EnvSettings {
    /// Attack time word (float bits, seconds).
    pub attack: u32,
    /// Decay time word (float bits, seconds).
    pub decay: u32,
    /// Sustain level word (float bits, 0..1).
    pub sustain: u32,
    /// Release time word (float bits, seconds).
    pub release: u32,
}

impl Default for EnvSettings {
    /// A fast attack into full sustain with a short release.
    fn default() -> (r: EnvSettings)
        ensures
            r == default_env(),
    {
        EnvSettings {
            attack: BITS_HUNDREDTH,
            decay: BITS_TENTH,
            sustain: BITS_ONE,
            release: BITS_TENTH,
        }
    }
}

/// The default amplitude envelope.
pub open spec fn default_env() -> EnvSettings {
    EnvSettings {
        attack: BITS_HUNDREDTH,
        decay: BITS_TENTH,
        sustain: BITS_ONE,
        release: BITS_TENTH,
    }
}

/// The low-frequency oscillator configuration.
#[derive(Clone, Copy, Debug, PartialEq, Eq, Structural)]
pub struct LfoSettings {
    /// Oscillation frequency word (float bits, Hz).
    pub freq: u32,
    /// Shape of the oscillation.
    pub waveform: LfoWaveform,
    /// Pitch (vibrato) modulation depth word (float bits).
    pub vib_amt: u32,
    /// Filter cutoff modulation depth word (float bits).
    pub filt_amt: u32,
}

impl Default for LfoSettings {
    /// A one-hertz sine with both depths at zero.
    fn default() -> (r: LfoSettings)
        ensures
            r == default_lfo(),
    {
        LfoSettings {
            freq: BITS_ONE,
            waveform: LfoWaveform::Sine,
            vib_amt: BITS_ZERO,
            filt_amt: BITS_ZERO,
        }
    }
}

/// The default low-frequency oscillator: a one-hertz sine, depths zero.
pub open spec fn default_lfo() -> LfoSettings {
    LfoSettings {
        freq: BITS_ONE,
        waveform: LfoWaveform::Sine,
        vib_amt: BITS_ZERO,
        filt_amt: BITS_ZERO,
    }
}

/// The delay effect configuration.
#[derive(Clone, Copy, Debug, PartialEq, Eq, Structural)]
pub struct DelaySettings {
    /// Delay time word (float bits, seconds).
    pub time: u32,
    /// Feedback amount word (float bits, 0..1).
    pub feedback: u32,
    /// Wet/dry mix word (float bits, 0..1).
    pub mix: u32,
    /// Whether the delay stage is built into the voice at all.
    pub enabled: bool,
}

impl Default for DelaySettings {
    /// Disabled, with every knob word at zero.
    fn default() -> (r: DelaySettings)
        ensures
            r == default_delay(),
    {
        DelaySettings { time: BITS_ZERO, feedback: BITS_ZERO, mix: BITS_ZERO, enabled: false }
    }
}

/// The default delay: disabled, all knobs zero.
pub open spec fn default_delay() -> DelaySettings {
    DelaySettings { time: BITS_ZERO, feedback: BITS_ZERO, mix: BITS_ZERO, enabled: false }
}

/// The reverb effect configuration.
#[derive(Clone, Copy, Debug, PartialEq, Eq, Structural)]
pub struct ReverbSettings {
    /// Room size word (float bits, 0..1).
    pub size: u32,
    /// Damping amount word (float bits, 0..1).
    pub damping: u32,
    /// Wet/dry mix word (float bits, 0..1).
    pub mix: u32,
    /// Whether the reverb stage is built into the voice at all.
    pub enabled: bool,
}

impl Default for ReverbSettings {
    /// Disabled, with every knob word at zero.
    fn default() -> (r: ReverbSettings)
        ensures
            r == default_reverb(),
    {
        ReverbSettings { size: BITS_ZERO, damping: BITS_ZERO, mix: BITS_ZERO, enabled: false }
    }
}

/// The default reverb: disabled, all knobs zero.
pub open spec fn default_reverb() -> ReverbSettings {
    ReverbSettings { size: BITS_ZERO, damping: BITS_ZERO, mix: BITS_ZERO, enabled: false }
}

/// A complete description of one synthesizer voice configuration.
///
/// The name is kept as the raw bytes that go on the wire; it is encoded
/// into a 32-byte zero-padded field, so only the first 32 bytes survive a
/// serialization round trip.
#[derive(Clone, Debug, PartialEq)]
pub struct Preset {
    /// Display name, at most 32 bytes on the wire.
    pub name: Vec<u8>,
    /// First oscillator.
    pub osc1: OscSettings,
    /// Second oscillator.
    pub osc2: OscSettings,
    /// Third oscillator.
    pub osc3: OscSettings,
    /// Noise generator level word (float bits, 0..1).
    pub noise: u32,
    /// Portamento glide amount word (float bits, 0..1).
    pub portamento: u32,
    /// Filter stage.
    pub filter: FilterSettings,
    /// Amplitude envelope.
    pub amp: EnvSettings,
    /// Whether the low-frequency oscillator exists in the voice.
    pub lfo_enabled: bool,
    /// Low-frequency oscillator configuration.
    pub lfo: LfoSettings,
    /// Delay effect.
    pub delay: DelaySettings,
    /// Reverb effect.
    pub reverb: ReverbSettings,
}

/// The mathematical value of a preset: the name as a byte sequence, all
/// other fields as they are.
#[verifier::ext_equal]
pub struct PresetView {
    /// Display name bytes.
    pub name: Seq<u8>,
    /// First oscillator.
    pub osc1: OscSettings,
    /// Second oscillator.
    pub osc2: OscSettings,
    /// Third oscillator.
    pub osc3: OscSettings,
    /// Noise level word.
    pub noise: u32,
    /// Portamento amount word.
    pub portamento: u32,
    /// Filter stage.
    pub filter: FilterSettings,
    /// Amplitude envelope.
    pub amp: EnvSettings,
    /// Whether the low-frequency oscillator exists in the voice.
    pub lfo_enabled: bool,
    /// Low-frequency oscillator configuration.
    pub lfo: LfoSettings,
    /// Delay effect.
    pub delay: DelaySettings,
    /// Reverb effect.
    pub reverb: ReverbSettings,
}

impl View for Preset {
    type V = PresetView;

    open spec fn view(&self) -> PresetView {
        PresetView {
            name: self.name@,
            osc1: self.osc1,
            osc2: self.osc2,
            osc3: self.osc3,
            noise: self.noise,
            portamento: self.portamento,
            filter: self.filter,
            amp: self.amp,
            lfo_enabled: self.lfo_enabled,
            lfo: self.lfo,
            delay: self.delay,
            reverb: self.reverb,
        }
    }
}

/// The name bytes of the default preset, "Init Patch".
pub open spec fn default_name() -> Seq<u8> {
    seq![0x49u8, 0x6e, 0x69, 0x74, 0x20, 0x50, 0x61, 0x74, 0x63, 0x68]
}

/// The default preset: one saw oscillator at full level, the others
/// silent, an open filter, no modulation and no effects.
pub open spec fn default_preset() -> PresetView {
    PresetView {
        name: default_name(),
        osc1: default_osc(),
        osc2: OscSettings { level: BITS_ZERO, ..default_osc() },
        osc3: OscSettings { level: BITS_ZERO, ..default_osc() },
        noise: BITS_ZERO,
        portamento: BITS_ZERO,
        filter: default_filter(),
        amp: default_env(),
        lfo_enabled: false,
        lfo: default_lfo(),
        delay: default_delay(),
        reverb: default_reverb(),
    }
}

impl Default for Preset {
    /// Builds the default preset, named "Init Patch".
    fn default() -> (r: Preset)
        ensures
            r@ == default_preset(),
    {
        let name: Vec<u8> = vec![0x49u8, 0x6e, 0x69, 0x74, 0x20, 0x50, 0x61, 0x74, 0x63, 0x68];
        let r = Preset {
            name,
            osc1: OscSettings::default(),
            osc2: OscSettings { level: BITS_ZERO, ..OscSettings::default() },
            osc3: OscSettings { level: BITS_ZERO, ..OscSettings::default() },
            noise: BITS_ZERO,
            portamento: BITS_ZERO,
            filter: FilterSettings::default(),
            amp: EnvSettings::default(),
            lfo_enabled: false,
            lfo: LfoSettings::default(),
            delay: DelaySettings::default(),
            reverb: ReverbSettings::default(),
        };
        proof {
            assert(r@.name =~= default_name());
            assert(r@ =~= default_preset());
        }
        r
    }
}

/// The name a duplicate of a preset gets: the name with " Copy" appended,
/// cut to the 32 bytes the record's name field holds.
pub open spec fn copy_name(name: Seq<u8>) -> Seq<u8> {
    let tagged = name + seq![0x20u8, 0x43, 0x6f, 0x70, 0x79];
    if tagged.len() > 32 {
        tagged.subrange(0, 32)
    } else {
        tagged
    }
}

impl Preset {
    /// Names a duplicate of this preset, as [`copy_name`] says.
    pub fn duplicate_name(&self) -> (r: Vec<u8>)
        ensures
            r@ == copy_name(self@.name),
    {
        let mut tagged = vstd::slice::slice_to_vec(self.name.as_slice());
        tagged.push(0x20);
        tagged.push(0x43);
        tagged.push(0x6f);
        tagged.push(0x70);
        tagged.push(0x79);
        proof {
            assert(tagged@ =~= self@.name + seq![0x20u8, 0x43, 0x6f, 0x70, 0x79]);
        }
        if tagged.len() > 32 {
            tagged.truncate(32);
            proof {
                assert(tagged@ =~= copy_name(self@.name));
            }
        }
        tagged
    }
}

/// An ordered bank of presets; the position in the bank is the program
/// number the device selects it by.
pub struct Storage {
    /// The presets in program order.
    pub presets: Vec<Preset>,
}

impl View for Storage {
    type V = Seq<PresetView>;

    open spec fn view(&self) -> Seq<PresetView> {
        self.presets@.map_values(|p: Preset| p@)
    }
}

} // verus!
