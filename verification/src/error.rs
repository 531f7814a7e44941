//! What can go wrong when talking to the sensor.

use vstd::prelude::*;

verus! {

/// The failures the driver reports. `E` is the error of the bus in use.
#[derive(Debug)]
pub enum Error<E> {
    /// The bus failed the transaction; the bus's own error is inside.
    I2C(E),
    /// A request asked for something the chip does not have.
    InvalidInputData,
    /// The chip answered with another identity than an ISL29125 has.
    WrongDeviceId,
}

} // verus!
