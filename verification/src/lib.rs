//! A bidirectional MIDI protocol translator: classifies raw channel-voice
//! events, rewrites jog-wheel and note messages for the opposite device, and
//! drives two directional routes between the devices.

pub mod bridge;
pub mod classify;
pub mod errors;
pub mod ports;
pub mod rewrite;
