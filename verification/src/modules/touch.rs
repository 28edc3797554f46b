//! Capacitive touch sensing.
use vstd::prelude::*;
use crate::devices::SeesawDevice;
use crate::driver::{DriverExt, Reg};
use crate::error::SeesawError;

verus! {

/// Microseconds a capacitance conversion takes: the chip is given this long
/// between the address phase and the read phase.
pub const TOUCH_READ_DELAY: u32 = 3_000;

pub const TOUCH: Reg = [0x0F, 0x10];

pub trait TouchModule<D: DriverExt>: SeesawDevice<Driver = D> {
    /// Reads the capacitance of the touch pad.
    fn read_touch_capacitance(&mut self) -> (r: Result<u16, SeesawError<D::Error>>)
        ensures
            final(self).address() == old(self).address(),
            match r {
                Ok(value) => crate::devices::log(*final(self)) == crate::devices::log(*old(self))
                    + crate::driver::read_ok(
                    old(self).address(),
                    TOUCH,
                    TOUCH_READ_DELAY as nat,
                    crate::codec::be16(value),
                ),
                Err(SeesawError::I2c(e)) => crate::driver::read_failed(
                    crate::devices::log(*old(self)),
                    crate::devices::log(*final(self)),
                    old(self).address(),
                    TOUCH,
                    TOUCH_READ_DELAY as nat,
                    2,
                    e,
                ),
                Err(SeesawError::InvalidHardwareId(_)) => false,
            },
    {
        let addr = self.addr();
        crate::error::from_bus(self.driver().read_u16_with_delay(addr, &TOUCH, TOUCH_READ_DELAY))
    }
}

} // verus!
