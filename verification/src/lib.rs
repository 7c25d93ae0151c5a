//! Turns a touchpad into a numeric keypad: the decisions, without the devices.
//!
//! The crate holds the rules by which touch events become key presses, grabs of
//! the touchpad and backlight commands. It opens no device: a caller feeds it
//! events and the time, and carries out the actions it answers with.

pub mod dev;
pub mod discovery;
pub mod key_simulation;
pub mod keys;
pub mod layout;
pub mod numpad_light;
