//! The single rotary encoder breakout: one encoder, its button, one LED.
use vstd::prelude::*;
use crate::devices::{SeesawDevice, SeesawDeviceInit};
use crate::driver::DriverExt;
use crate::error::SeesawError;
use crate::modules::encoder::EncoderModule;
use crate::modules::gpio::GpioModule;
use crate::modules::neopixel::NeopixelModule;
use crate::modules::status::StatusModule;
use crate::modules::HardwareId;

verus! {

/// RotaryEncoder
#[derive(Debug)]
pub struct RotaryEncoder<D> {
    addr: u8,
    driver: D,
}

impl<D: DriverExt> SeesawDevice for RotaryEncoder<D> {
    type Driver = D;

    const DEFAULT_ADDR: u8 = 0x36;

    const HARDWARE_ID: HardwareId = HardwareId::SAMD09;

    const PRODUCT_ID: u16 = 4991;

    closed spec fn address(&self) -> u8 {
        self.addr
    }

    closed spec fn bus(&self) -> D {
        self.driver
    }

    fn addr(&self) -> (a: u8) {
        self.addr
    }

    fn driver(&mut self) -> (d: &mut D) {
        &mut self.driver
    }

    fn new(addr: u8, driver: D) -> (dev: Self) {
        RotaryEncoder { addr, driver }
    }

    fn new_with_default_addr(driver: D) -> (dev: Self)
        ensures
            dev.address() == 0x36,
    {
        RotaryEncoder { addr: Self::DEFAULT_ADDR, driver }
    }
}

pub type RotaryEncoderColor = rgb::Grb<u8>;

impl<D: DriverExt> GpioModule<D> for RotaryEncoder<D> {

}

impl<D: DriverExt> EncoderModule<D, 1> for RotaryEncoder<D> {
    const ENCODER_BTN_PINS: [u8; 1] = [24];

    proof fn button_pins_in_port() {
    }
}

impl<D: DriverExt> NeopixelModule<D> for RotaryEncoder<D> {
    type Color = RotaryEncoderColor;

    const N_LEDS: usize = 1;

    const PIN: u8 = 6;

    proof fn strip_fits() {
        <Self::Color as crate::modules::neopixel::PixelColor>::size_is_three_or_four();
    }
}

/// The steps that bring the board up after its reset: the button is made
/// readable, then the LED output is set up.
pub open spec fn init_plan() -> Seq<crate::driver::Step> {
    crate::modules::encoder::enable_button_plan(24) + crate::modules::neopixel::enable_plan(6, 3)
}

impl<D: DriverExt> SeesawDeviceInit<D> for RotaryEncoder<D> {
    /// Resets the chip, checks that it is the expected one, makes the button
    /// readable and sets up the LED output.
    fn init(self) -> (r: Result<Self, SeesawError<D::Error>>)
        ensures
            match r {
                Ok(dev) => crate::devices::log(dev) == crate::devices::log(self)
                    + crate::modules::status::verified_reset_events(
                        self.address(),
                        HardwareId::SAMD09.code(),
                    ) + crate::driver::run_ok(self.address(), init_plan()),
                Err(e) => exists|end: Self|
                    crate::devices::bring_up_failed(
                        crate::devices::log(self),
                        #[trigger] crate::devices::log(end),
                        self.address(),
                        HardwareId::SAMD09.code(),
                        init_plan(),
                        e,
                    ),
            },
    {
        let mut dev = self;
        let ghost before = crate::devices::log(self);
        let ghost addr = self.address();
        match dev.reset_and_verify_seesaw() {
            Ok(()) => {},
            Err(e) => {
                proof {
                    if let SeesawError::InvalidHardwareId(id) = e {
                        assert(crate::devices::log(dev) =~= before
                            + crate::modules::status::verified_reset_events(addr, id));
                    }
                }
                assert(crate::devices::bring_up_failed(
                    before,
                    crate::devices::log(dev),
                    addr,
                    HardwareId::SAMD09.code(),
                    init_plan(),
                    e,
                ));
                return Err(e);
            },
        }
        assert(crate::devices::log(dev) =~= before
            + crate::modules::status::verified_reset_events(
                addr,
                HardwareId::SAMD09.code(),
            ));
        match dev.configure() {
            Ok(()) => Ok(dev),
            Err(e) => {
                assert(crate::devices::bring_up_failed(
                    before,
                    crate::devices::log(dev),
                    addr,
                    HardwareId::SAMD09.code(),
                    init_plan(),
                    e,
                ));
                Err(e)
            },
        }
    }
}

impl<D: DriverExt> RotaryEncoder<D> {
    /// The part of the bring-up that follows the reset.
    fn configure(&mut self) -> (r: Result<(), SeesawError<D::Error>>)
        ensures
            final(self).address() == old(self).address(),
            r is Err ==> r->Err_0 is I2c,
            crate::driver::ran(
                crate::devices::log(*old(self)),
                crate::devices::log(*final(self)),
                old(self).address(),
                init_plan(),
                crate::error::bus_result(r),
            ),
    {
        proof {
            <RotaryEncoderColor as crate::modules::neopixel::PixelColor>::size_is_three_or_four();
        }
        let ghost before = crate::devices::log(*self);
        let ghost addr = self.address();
        let ghost a = crate::modules::encoder::enable_button_plan(24);
        let ghost b = crate::modules::neopixel::enable_plan(6, 3);
        let r = self.enable_button(0);
        let ghost mid = crate::devices::log(*self);
        if r.is_err() {
            proof {
                crate::driver::lemma_ran_stopped_early(
                    before,
                    mid,
                    addr,
                    a,
                    b,
                    crate::error::bus_result(r)->Err_0,
                );
            }
            return r;
        }
        let r = self.enable_neopixel();
        proof {
            crate::driver::lemma_ran_then(
                before,
                mid,
                crate::devices::log(*self),
                addr,
                a,
                b,
                crate::error::bus_result(r),
            );
        }
        r
    }
}

/// What the type declares of the peripheral: where the chip answers, what it
/// is built on, and how its capabilities are wired.
pub proof fn lemma_declared<D: DriverExt>()
    ensures
        <RotaryEncoder<D> as SeesawDevice>::DEFAULT_ADDR == 0x36,
        <RotaryEncoder<D> as SeesawDevice>::HARDWARE_ID == HardwareId::SAMD09,
        <RotaryEncoder<D> as SeesawDevice>::PRODUCT_ID == 4991,
        <RotaryEncoder<D> as NeopixelModule<D>>::N_LEDS == 1,
        <RotaryEncoder<D> as NeopixelModule<D>>::PIN == 6,
        <RotaryEncoder<D> as EncoderModule<D, 1>>::ENCODER_BTN_PINS@ == seq![24u8],
{
    assert(<RotaryEncoder<D> as EncoderModule<D, 1>>::ENCODER_BTN_PINS@ =~= seq![24u8]);
}

} // verus!
