//! Verified core of a MIDI-to-Philips-Hue bridge: MIDI message decoding,
//! mapping of controller values onto Hue light commands, the bridge
//! pairing/throttling state machine, and the decisions of the user interface.

pub mod text;
pub mod midi;
pub mod strmap;
pub mod hue;
pub mod body;
pub mod config;
pub mod mapping;
pub mod messages;
pub mod worker;
pub mod ui;
