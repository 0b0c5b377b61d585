//! Equal-tempered pitch resolution and sample-accurate tone sequencing.
//!
//! A note name such as `C#4` is resolved to its signed distance in semitones
//! from the concert pitch A4, and a list of notes is laid out as an ordered
//! sequence of finite sample streams: one tone per note, each followed by a
//! short silent gap. Everything here is integer arithmetic; turning a semitone
//! distance into hertz and a sample index into an amplitude is left to the
//! caller that owns the audio device.

pub mod pitch;
pub mod stream;
pub mod sequence;
