//! Driver for an HD44780-compatible character LCD on a 4-bit parallel bus.
//!
//! The driver computes every pin transition and delay that the controller's
//! protocol calls for and queues them as [`bus::BusOp`] values; whoever owns
//! the pins and the clock carries them out in order.
pub mod bus;
pub mod codec;
pub mod driver;
