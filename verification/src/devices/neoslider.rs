//! The NeoSlider: a slide potentiometer with four LEDs along it.
use vstd::prelude::*;
use crate::devices::{SeesawDevice, SeesawDeviceInit};
use crate::driver::DriverExt;
use crate::error::SeesawError;
use crate::modules::adc::AdcModule;
use crate::modules::gpio::GpioModule;
use crate::modules::neopixel::NeopixelModule;
use crate::modules::status::StatusModule;
use crate::modules::HardwareId;

verus! {

/// The pin the wiper of the potentiometer is wired to.
pub const SLIDER_PIN: u8 = 18;

/// NeoSlider
#[derive(Debug)]
pub struct NeoSlider<D> {
    addr: u8,
    driver: D,
}

impl<D: DriverExt> SeesawDevice for NeoSlider<D> {
    type Driver = D;

    const DEFAULT_ADDR: u8 = 0x30;

    const HARDWARE_ID: HardwareId = HardwareId::ATTINY817;

    const PRODUCT_ID: u16 = 5295;

    closed spec fn address(&self) -> u8 {
        self.addr
    }

    closed spec fn bus(&self) -> D {
        self.driver
    }

    fn addr(&self) -> (a: u8) {
        self.addr
    }

    fn driver(&mut self) -> (d: &mut D) {
        &mut self.driver
    }

    fn new(addr: u8, driver: D) -> (dev: Self) {
        NeoSlider { addr, driver }
    }

    fn new_with_default_addr(driver: D) -> (dev: Self)
        ensures
            dev.address() == 0x30,
    {
        NeoSlider { addr: Self::DEFAULT_ADDR, driver }
    }
}

pub type NeoSliderColor = rgb::Grb<u8>;

impl<D: DriverExt> AdcModule<D> for NeoSlider<D> {

}

impl<D: DriverExt> GpioModule<D> for NeoSlider<D> {

}

impl<D: DriverExt> NeopixelModule<D> for NeoSlider<D> {
    type Color = NeoSliderColor;

    const N_LEDS: usize = 4;

    const PIN: u8 = 14;

    proof fn strip_fits() {
        <Self::Color as crate::modules::neopixel::PixelColor>::size_is_three_or_four();
    }
}

impl<D: DriverExt> SeesawDeviceInit<D> for NeoSlider<D> {
    /// Resets the chip, checks that it is the expected one and sets up the
    /// LED output.
    fn init(self) -> (r: Result<Self, SeesawError<D::Error>>)
        ensures
            match r {
                Ok(dev) => crate::devices::log(dev) == crate::devices::log(self)
                    + crate::modules::status::verified_reset_events(
                        self.address(),
                        HardwareId::ATTINY817.code(),
                    ) + crate::driver::run_ok(
                        self.address(),
                        crate::modules::neopixel::enable_plan(14, 12),
                    ),
                Err(e) => exists|end: Self|
                    crate::devices::bring_up_failed(
                        crate::devices::log(self),
                        #[trigger] crate::devices::log(end),
                        self.address(),
                        HardwareId::ATTINY817.code(),
                        crate::modules::neopixel::enable_plan(14, 12),
                        e,
                    ),
            },
    {
        let mut dev = self;
        let ghost before = crate::devices::log(self);
        let ghost addr = self.address();
        match dev.reset_and_verify_seesaw() {
            Ok(()) => {},
            Err(e) => {
                proof {
                    if let SeesawError::InvalidHardwareId(id) = e {
                        assert(crate::devices::log(dev) =~= before
                            + crate::modules::status::verified_reset_events(addr, id));
                    }
                }
                assert(crate::devices::bring_up_failed(
                    before,
                    crate::devices::log(dev),
                    addr,
                    HardwareId::ATTINY817.code(),
                    crate::modules::neopixel::enable_plan(14, 12),
                    e,
                ));
                return Err(e);
            },
        }
        assert(crate::devices::log(dev) =~= before
            + crate::modules::status::verified_reset_events(
                addr,
                HardwareId::ATTINY817.code(),
            ));
        proof {
            <NeoSliderColor as crate::modules::neopixel::PixelColor>::size_is_three_or_four();
            assert(<NeoSliderColor as crate::modules::neopixel::PixelColor>::SIZE == 3);
            assert(<Self as NeopixelModule<D>>::N_LEDS == 4);
            assert(<Self as NeopixelModule<D>>::PIN == 14);
        }
        let ghost mid = crate::devices::log(dev);
        match dev.enable_neopixel() {
            Ok(()) => Ok(dev),
            Err(e) => {
                assert(crate::devices::bring_up_failed(
                    before,
                    crate::devices::log(dev),
                    addr,
                    HardwareId::ATTINY817.code(),
                    crate::modules::neopixel::enable_plan(14, 12),
                    e,
                ));
                Err(e)
            },
        }
    }
}

impl<D: DriverExt> NeoSlider<D> {
    /// Reads the position of the slider: the conversion of the wiper pin.
    pub fn slider_value(&mut self) -> (r: Result<u16, SeesawError<D::Error>>)
        ensures
            final(self).address() == old(self).address(),
            match r {
                Ok(value) => crate::devices::log(*final(self)) == crate::devices::log(*old(self))
                    + crate::driver::read_ok(
                    old(self).address(),
                    crate::modules::adc::adc_register(HardwareId::ATTINY817, SLIDER_PIN),
                    crate::driver::DELAY_TIME as nat,
                    crate::codec::be16(value),
                ),
                Err(SeesawError::I2c(e)) => crate::driver::read_failed(
                    crate::devices::log(*old(self)),
                    crate::devices::log(*final(self)),
                    old(self).address(),
                    crate::modules::adc::adc_register(HardwareId::ATTINY817, SLIDER_PIN),
                    crate::driver::DELAY_TIME as nat,
                    2,
                    e,
                ),
                Err(SeesawError::InvalidHardwareId(_)) => false,
            },
    {
        self.analog_read(18)
    }
}

/// What the type declares of the peripheral: where the chip answers, what it
/// is built on, and how its capabilities are wired.
pub proof fn lemma_declared<D: DriverExt>()
    ensures
        <NeoSlider<D> as SeesawDevice>::DEFAULT_ADDR == 0x30,
        <NeoSlider<D> as SeesawDevice>::HARDWARE_ID == HardwareId::ATTINY817,
        <NeoSlider<D> as SeesawDevice>::PRODUCT_ID == 5295,
        <NeoSlider<D> as NeopixelModule<D>>::N_LEDS == 4,
        <NeoSlider<D> as NeopixelModule<D>>::PIN == 14,
{
}

} // verus!
