//! Three-finger touchpad swipes turned into mouse drags.
//!
//! Lines of a gesture log are parsed into gesture records ([`parser`]), a
//! drag state machine turns the records into pointer actions ([`drag`]),
//! and a virtual pointer turns the actions into batches of raw input events
//! ([`uinput_handler`]).  The [`driver`] ties the three together, and
//! [`laws`] states what holds of them on every input.
//!
//! Reading the log, waiting and writing to the device are left to the
//! caller: every function here maps plain values to plain values.  Motion
//! is held in fixed point, displacements and the acceleration factor in
//! thousandths of a unit and accumulated motion in millionths, so that all
//! arithmetic is exact.

pub mod config;
pub mod decimal;
pub mod drag;
pub mod driver;
pub mod events;
pub mod gesture;
pub mod laws;
pub mod parser;
pub mod text;
pub mod uinput_handler;
pub mod units;
