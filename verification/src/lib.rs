//! Stereo sine-tone synthesis engine for an interactive hearing-threshold
//! (audiogram) test tool.
//!
//! The engine is a pure, pull-based sample generator: an envelope table is
//! precomputed once per tone burst, a tone oscillator advances a phase
//! position per sample, and a stereo channel gate alternates delivery
//! between the tone-bearing channel and silence. All per-sample quantities
//! are exact integers: envelope gains are fixed-point fractions of
//! [`envelope::GAIN_SCALE`], and the oscillator emits a phase position out
//! of a fixed modulus, so that the playback layer only has to evaluate one
//! sine and one multiplication per active sample.

pub mod channel;
pub mod envelope;
pub mod sinewave;
