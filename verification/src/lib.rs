//! Driver for the CS43L22 audio DAC/amplifier, controlled over a two-wire
//! register bus.
//!
//! The driver brings the chip from power-off to a playback-ready state with
//! a fixed sequence of register writes, exposes the transport operations
//! (play, pause, resume, stop), scales caller-facing volume percentages into
//! the chip's attenuation encoding, and can verify every write by reading
//! the register back.
//!
//! Every operation's contract states the exact sequence of register writes
//! it puts on the bus — and, with verification on, the exact read-backs —
//! over the ghost transaction histories of [`RegisterBus`].

pub mod bus;
pub mod controller;
pub mod laws;
pub mod registers;
pub mod sim;
pub mod volume;

pub use bus::{DriverError, RegisterBus};
pub use controller::CS43L22;
pub use registers::{OutputDevice, RegRead, RegWrite};
pub use sim::{SimFault, SimulatedBus};
