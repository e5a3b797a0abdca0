//! # L9961 industrial BMS driver
//! Typed, verified access to the registers of the STMicro L9961 battery monitor, the
//! conversions between register codes and physical units, and the decisions of its
//! measurement cycle.
//!
//! The driver talks to the device over an `embedded_hal::i2c::I2c` bus. The measurement cycle,
//! which waits on the ready and fault lines, is a state machine (`acquisition`) that a caller
//! drives with its own waits and bus transactions.
use vstd::prelude::*;

pub mod acquisition;
pub mod bitfield;
pub mod bus;
pub mod config;
pub mod conversions;
pub mod device;
pub mod error;
pub mod faults;
pub mod measurement;
pub mod registers;

pub use acquisition::{Event, MeasurementCycle, Step};
pub use config::Config;
pub use device::L9961;
pub use error::Error;
pub use registers::Registers;

verus! {

} // verus!
