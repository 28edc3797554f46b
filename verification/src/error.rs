//! The error type shared by every capability.
use vstd::prelude::*;

verus! {

/// Why a register operation did not deliver.
///
/// `I2c` carries the transport's own error, untouched. `InvalidHardwareId`
/// is the only error this layer raises by itself: the chip answered, but with
/// an identity byte other than the one the device type declares.
#[derive(Copy, Clone, Debug)]
pub enum SeesawError<E> {
    /// I2C bus error
    I2c(E),
    /// Occurs when an invalid hardware ID is read
    InvalidHardwareId(u8),
}

impl<E> SeesawError<E> {
    /// A short description of the error.
    pub fn describe(&self) -> (s: &'static str)
        ensures
            self is I2c ==> s == "I2C error",
            self is InvalidHardwareId ==> s == "invalid hardware id",
    {
        match self {
            SeesawError::I2c(_) => "I2C error",
            SeesawError::InvalidHardwareId(_) => "invalid hardware id",
        }
    }

    /// The transport error inside, if that is what this is.
    pub fn source(&self) -> (r: Option<&E>)
        ensures
            match *self {
                SeesawError::I2c(e) => r == Some(&e),
                SeesawError::InvalidHardwareId(_) => r is None,
            },
    {
        match self {
            SeesawError::I2c(err) => Some(err),
            _ => None,
        }
    }
}

/// The outcome on the transport that a capability's result stands for.
pub open spec fn bus_result<T, E>(r: Result<T, SeesawError<E>>) -> Result<(), E> {
    match r {
        Err(SeesawError::I2c(e)) => Err(e),
        _ => Ok(()),
    }
}

/// Wraps what the transport reported: its error, untouched, under `I2c`.
pub fn from_bus<T, E>(r: Result<T, E>) -> (out: Result<T, SeesawError<E>>)
    ensures
        match r {
            Ok(v) => out == Ok::<T, SeesawError<E>>(v),
            Err(e) => out == Err::<T, SeesawError<E>>(SeesawError::I2c(e)),
        },
{
    match r {
        Ok(v) => Ok(v),
        Err(e) => Err(SeesawError::I2c(e)),
    }
}

} // verus!
