//! A chip of which nothing is known but that it speaks the protocol.
use vstd::prelude::*;
use crate::devices::{SeesawDevice, SeesawDeviceInit};
use crate::driver::DriverExt;
use crate::error::SeesawError;
use crate::modules::status::StatusModule;
use crate::modules::HardwareId;

verus! {

/// A bare chip: status and reset, nothing else.
#[derive(Debug)]
pub struct GenericDevice<D> {
    addr: u8,
    driver: D,
}

impl<D: DriverExt> SeesawDevice for GenericDevice<D> {
    type Driver = D;

    const DEFAULT_ADDR: u8 = 0x49;

    const HARDWARE_ID: HardwareId = HardwareId::SAMD09;

    const PRODUCT_ID: u16 = 0;

    closed spec fn address(&self) -> u8 {
        self.addr
    }

    closed spec fn bus(&self) -> D {
        self.driver
    }

    fn addr(&self) -> (a: u8) {
        self.addr
    }

    fn driver(&mut self) -> (d: &mut D) {
        &mut self.driver
    }

    fn new(addr: u8, driver: D) -> (dev: Self) {
        GenericDevice { addr, driver }
    }

    fn new_with_default_addr(driver: D) -> (dev: Self)
        ensures
            dev.address() == 0x49,
    {
        GenericDevice { addr: Self::DEFAULT_ADDR, driver }
    }
}

impl<D: DriverExt> SeesawDeviceInit<D> for GenericDevice<D> {
    /// Resets the chip. Its identity is not looked at.
    fn init(self) -> (r: Result<Self, SeesawError<D::Error>>)
        ensures
            match r {
                Ok(dev) => crate::devices::log(dev) == crate::devices::log(self)
                    + crate::modules::status::reset_events(self.address()),
                Err(SeesawError::I2c(e)) => exists|end: Self|
                    crate::modules::status::reset_refused(
                        crate::devices::log(self),
                        #[trigger] crate::devices::log(end),
                        self.address(),
                        e,
                    ),
                Err(SeesawError::InvalidHardwareId(_)) => false,
            },
    {
        let mut dev = self;
        match dev.reset() {
            Ok(()) => Ok(dev),
            Err(e) => {
                assert(crate::modules::status::reset_refused(
                    crate::devices::log(self),
                    crate::devices::log(dev),
                    self.address(),
                    crate::error::bus_result::<(), D::Error>(Err(e))->Err_0,
                ));
                Err(e)
            },
        }
    }
}

/// What the type declares of the peripheral: where the chip answers, what it
/// is built on, and how its capabilities are wired.
pub proof fn lemma_declared<D: DriverExt>()
    ensures
        <GenericDevice<D> as SeesawDevice>::DEFAULT_ADDR == 0x49,
        <GenericDevice<D> as SeesawDevice>::HARDWARE_ID == HardwareId::SAMD09,
        <GenericDevice<D> as SeesawDevice>::PRODUCT_ID == 0,
{
}

} // verus!
