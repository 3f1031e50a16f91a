//! Client-side logic for controlling the volume and mute state of the
//! system's default audio output device, together with a small backlight
//! brightness model.
//!
//! The audio server speaks an asynchronous, callback-driven protocol; the
//! unverified binary around this library owns the event loops, threads and
//! channels, and hands every decision to the verified functions here: volume
//! arithmetic, the state cache and its callbacks, the request and
//! subscription decisions, and the device facade's state machine.

pub mod backlight;
pub mod cache;
pub mod cli;
pub mod connection;
pub mod device;
pub mod request;
pub mod volume;
