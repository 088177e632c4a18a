//! Morse code audio rendering.
//!
//! Turns a short text message into Morse-code timing events and renders
//! those events into 8-bit PCM audio samples. The pipeline is:
//! [`timing::samples_per_element`] derives the length of one Morse unit,
//! [`schedule::schedule_word`] turns text into timed on/off segments, and
//! [`synth::synthesize`] fills the segments with waveform samples.

pub mod schedule;
pub mod symbols;
pub mod synth;
pub mod timing;

pub use schedule::{schedule_character, schedule_word, Sound, UnknownChar};
pub use symbols::lookup;
pub use synth::{clamp, synthesize};
pub use timing::samples_per_element;
