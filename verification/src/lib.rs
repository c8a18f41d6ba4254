//! The control core of a real-time MIDI synthesizer.
//!
//! Everything here is integer state and decisions: which event a raw MIDI
//! message is, what an event does to the voices and the parameters, how much
//! each voice weighs at each slot of an audio buffer, and which voices leave
//! when a buffer is done. The oscillator arithmetic and the device transports
//! live with the caller.

pub mod device;
pub mod dispatch;
pub mod envelope;
pub mod fraction;
pub mod midi;
pub mod params;
pub mod quit;
pub mod tuning;
pub mod voice;
