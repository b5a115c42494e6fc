//! Register-level protocol core for the TMC5130 stepper-motor controller.
//!
//! The chip is reached over a synchronous serial bus in transactions of five
//! bytes each way. This crate holds everything about such a transaction that
//! can be decided without touching hardware: the register address table, the
//! transmit frame, the order in which chip select is driven around the
//! exchange, and the decoding of the response. The hardware itself (bus and
//! pins) stays with the caller, who carries out the commands the driver hands
//! back and reports what the bus answered.

pub mod driver;
pub mod frame;
pub mod line;
pub mod payload;
pub mod registers;
pub mod response;
pub mod state;
pub mod status;

pub use driver::TMC5130;
pub use line::{Drive, Level, Line};
pub use registers::Registers;
pub use response::{Decode, Reply, Response};
pub use state::Phase;
pub use status::TmcStatus;
