//! Emulator of a small 8-bit single-board computer: a 65C02 CPU wired to a
//! 65C22 Versatile Interface Adapter (VIA) and an HD44780-style character LCD.
//!
//! This crate holds the verified core: the VIA register file, the LCD
//! controller, the bus and memory model with power-on-garbage tracking, and
//! the orchestrator's run/pause/step state machine.  The CPU instruction set
//! is consumed as an outside library, and all thread and I/O plumbing lives
//! outside this crate.

pub mod bits;
pub mod errors;
pub mod laws;
pub mod lcd;
pub mod messages;
pub mod rng;
pub mod system;
pub mod via;
