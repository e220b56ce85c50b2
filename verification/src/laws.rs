//! What the library's functions promise, stated of their inputs and results alone: each
//! law takes the arguments and the outcome of one call, or of several, and says what
//! holds of them whatever the arguments are.

pub mod ble;
pub mod client;
pub mod codec;
pub mod events;
pub mod sending;
pub mod serial;
pub mod settings;
pub mod text;
pub mod voice;
