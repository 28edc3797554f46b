//! The soil sensor: a capacitive moisture probe.
use vstd::prelude::*;
use crate::devices::{SeesawDevice, SeesawDeviceInit};
use crate::driver::DriverExt;
use crate::error::SeesawError;
use crate::modules::status::StatusModule;
use crate::modules::touch::TouchModule;
use crate::modules::HardwareId;

verus! {

/// SoilSensor
#[derive(Debug)]
pub struct SoilSensor<D> {
    addr: u8,
    driver: D,
}

impl<D: DriverExt> SeesawDevice for SoilSensor<D> {
    type Driver = D;

    const DEFAULT_ADDR: u8 = 0x36;

    const HARDWARE_ID: HardwareId = HardwareId::SAMD09;

    const PRODUCT_ID: u16 = 4026;

    closed spec fn address(&self) -> u8 {
        self.addr
    }

    closed spec fn bus(&self) -> D {
        self.driver
    }

    fn addr(&self) -> (a: u8) {
        self.addr
    }

    fn driver(&mut self) -> (d: &mut D) {
        &mut self.driver
    }

    fn new(addr: u8, driver: D) -> (dev: Self) {
        SoilSensor { addr, driver }
    }

    fn new_with_default_addr(driver: D) -> (dev: Self)
        ensures
            dev.address() == 0x36,
    {
        SoilSensor { addr: Self::DEFAULT_ADDR, driver }
    }
}

impl<D: DriverExt> TouchModule<D> for SoilSensor<D> {

}

impl<D: DriverExt> SeesawDeviceInit<D> for SoilSensor<D> {
    /// Resets the chip and checks that it is the expected one.
    fn init(self) -> (r: Result<Self, SeesawError<D::Error>>)
        ensures
            match r {
                Ok(dev) => crate::devices::log(dev) == crate::devices::log(self)
                    + crate::modules::status::verified_reset_events(
                    self.address(),
                    HardwareId::SAMD09.code(),
                ),
                Err(e) => exists|end: Self|
                    crate::devices::bring_up_failed(
                        crate::devices::log(self),
                        #[trigger] crate::devices::log(end),
                        self.address(),
                        HardwareId::SAMD09.code(),
                        Seq::empty(),
                        e,
                    ),
            },
    {
        let mut dev = self;
        let ghost before = crate::devices::log(self);
        let ghost addr = self.address();
        match dev.reset_and_verify_seesaw() {
            Ok(()) => {
                assert(crate::devices::log(dev) =~= before
                    + crate::modules::status::verified_reset_events(
                        addr,
                        HardwareId::SAMD09.code(),
                    ));
                Ok(dev)
            },
            Err(e) => {
                proof {
                    if let SeesawError::InvalidHardwareId(id) = e {
                        assert(crate::devices::log(dev) =~= before
                            + crate::modules::status::verified_reset_events(addr, id));
                    }
                }
                assert(crate::devices::bring_up_failed(
                    before,
                    crate::devices::log(dev),
                    addr,
                    HardwareId::SAMD09.code(),
                    Seq::empty(),
                    e,
                ));
                Err(e)
            },
        }
    }
}

/// What the type declares of the peripheral: where the chip answers, what it
/// is built on, and how its capabilities are wired.
pub proof fn lemma_declared<D: DriverExt>()
    ensures
        <SoilSensor<D> as SeesawDevice>::DEFAULT_ADDR == 0x36,
        <SoilSensor<D> as SeesawDevice>::HARDWARE_ID == HardwareId::SAMD09,
        <SoilSensor<D> as SeesawDevice>::PRODUCT_ID == 4026,
{
}

} // verus!
