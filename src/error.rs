//! Errors of the L9961 driver.
use vstd::prelude::*;

verus! {

/// The generic I2C error kinds of embedded-hal; a value is carried, never inspected.
#[verifier::external_type_specification]
#[verifier::external_body]
pub struct ExErrorKind(embedded_hal::i2c::ErrorKind);

/// Errors of the L9961 driver
#[derive(Clone, Copy, Debug, PartialEq, Eq)]
pub enum Error {
    /// The device did not signal a completed measurement or a fault before the deadline
    MeasurementTimeout,
    /// The bus transaction failed
    I2CError(embedded_hal::i2c::ErrorKind),
}

} // verus!
