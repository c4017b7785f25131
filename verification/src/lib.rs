//! A bridge between OSC and MIDI for live-audio rigs.
//!
//! Inbound OSC messages are matched against a routing table; each rule
//! that a message triggers may ask for an outbound OSC message and for
//! MIDI messages, among them the preset selections of the Quad Cortex
//! and the GT-1000. The library decodes, matches, encodes and decides;
//! sockets, files and the MIDI output belong to its caller.

pub mod devices;
pub mod dispatch;
pub mod log;
pub mod mapping;
pub mod matcher;
pub mod midi;
pub mod osc;
pub mod preset;
pub mod store;
pub mod text;
