//! Protocol core of an HD44780 character-LCD driver.
//!
//! The HD44780 is a write-only controller chip driven over one of three
//! transports: an 8-bit parallel bus, a 4-bit parallel bus, or an I2C port
//! expander. This crate holds everything about that protocol that can be
//! decided ahead of the electrical work: how a logical byte is encoded on
//! each transport, the exact power-up initialization sequences with their
//! settle delays, and the command bytes of every display operation.
//!
//! Each operation of the controller returns the exact sequence of
//! line-level operations ([`ops::LineOp`]) that the transport must perform,
//! and a [`runner::PlanRunner`] hands such a sequence out one step at a
//! time, stopping for good at the first reported failure. A host crate owns
//! the actual pins, I2C peripheral and delay provider, and performs each
//! step as it is handed out.

pub mod bus;
pub mod controller;
pub mod display_mode;
pub mod entry_mode;
pub mod error;
pub mod ops;
pub mod runner;

pub use bus::eightbit::EightBitBus;
pub use bus::fourbit::FourBitBus;
pub use bus::i2c::I2CBus;
pub use bus::DataBus;
pub use controller::{Direction, HD44780};
pub use display_mode::{Cursor, CursorBlink, Display, DisplayMode};
pub use entry_mode::{CursorMode, EntryMode, ShiftMode};
pub use error::Error;
pub use ops::LineOp;
pub use runner::PlanRunner;
