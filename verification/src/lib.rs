//! The decision core of a browser client for Meshtastic radios: serial framing,
//! speech-codec framing, settings, event rendering, packet planning and the
//! Bluetooth link state machines. Everything here works on plain values; the
//! browser glue around it performs the plans that this library makes.

pub mod amrnb;
pub mod ble;
pub mod client;
pub mod codec;
pub mod events;
pub mod laws;
pub mod sending;
pub mod serial;
pub mod settings;
pub mod state;
pub mod text;
pub mod util;
pub mod voice;
