//! Core of a preset editor for a monophonic hardware synthesizer.
//!
//! The crate covers the preset wire format (a fixed 200-byte record per
//! preset), the nibble-encoded transport framing used to exchange whole
//! preset banks with a device or a file, the structural-change detector
//! that decides between incremental parameter updates and full voice
//! rebuilds, and the control-rate pieces of the audio engine (portamento
//! glide, a low-frequency oscillator, and the command queue between the
//! control context and the render context).
//!
//! Continuous knobs travel on the wire as 32-bit little-endian words (the
//! bit patterns of single-precision floats). The library stores and
//! transforms them as raw `u32` words, which keeps every codec operation
//! exact; turning a word into a float for actual signal processing is the
//! caller's concern. The glide and oscillator components run on integer
//! fixed-point values for the same reason.

pub mod bytes;
pub mod codec;
pub mod engine;
pub mod fast_lfo;
pub mod framing;
pub mod live_params;
pub mod piano;
pub mod portamento;
pub mod protocol;
pub mod queue;
pub mod session;
