//! The NeoTrellis: a 4x4 keypad with an LED under every key.
use vstd::prelude::*;
use crate::devices::{SeesawDevice, SeesawDeviceInit};
use crate::driver::DriverExt;
use crate::error::SeesawError;
use crate::modules::keypad::KeypadModule;
use crate::modules::neopixel::NeopixelModule;
use crate::modules::status::StatusModule;
use crate::modules::HardwareId;

verus! {

/// NeoTrellis
#[derive(Debug)]
pub struct NeoTrellis<D> {
    addr: u8,
    driver: D,
}

impl<D: DriverExt> SeesawDevice for NeoTrellis<D> {
    type Driver = D;

    const DEFAULT_ADDR: u8 = 0x2E;

    const HARDWARE_ID: HardwareId = HardwareId::SAMD09;

    const PRODUCT_ID: u16 = 3954;

    closed spec fn address(&self) -> u8 {
        self.addr
    }

    closed spec fn bus(&self) -> D {
        self.driver
    }

    fn addr(&self) -> (a: u8) {
        self.addr
    }

    fn driver(&mut self) -> (d: &mut D) {
        &mut self.driver
    }

    fn new(addr: u8, driver: D) -> (dev: Self) {
        NeoTrellis { addr, driver }
    }

    fn new_with_default_addr(driver: D) -> (dev: Self)
        ensures
            dev.address() == 0x2E,
    {
        NeoTrellis { addr: Self::DEFAULT_ADDR, driver }
    }
}

pub type NeoTrellisColor = rgb::Grb<u8>;

impl<D: DriverExt> KeypadModule<D> for NeoTrellis<D> {
    const NUM_COLS: u8 = 4;

    const NUM_ROWS: u8 = 4;

    proof fn grid_fits() {
    }
}

impl<D: DriverExt> NeopixelModule<D> for NeoTrellis<D> {
    type Color = NeoTrellisColor;

    const N_LEDS: usize = 16;

    const PIN: u8 = 3;

    proof fn strip_fits() {
        <Self::Color as crate::modules::neopixel::PixelColor>::size_is_three_or_four();
    }
}

/// The position in the string of the LED under the key in column `x` of row
/// `y`: the LEDs are strung row by row.
pub open spec fn led_index(x: u8, y: u8) -> usize {
    (y * 4 + x) as usize
}

impl<D: DriverExt> SeesawDeviceInit<D> for NeoTrellis<D> {
    /// Resets the chip, checks that it is the expected one and sets up the
    /// LED output.
    fn init(self) -> (r: Result<Self, SeesawError<D::Error>>)
        ensures
            match r {
                Ok(dev) => crate::devices::log(dev) == crate::devices::log(self)
                    + crate::modules::status::verified_reset_events(
                        self.address(),
                        HardwareId::SAMD09.code(),
                    ) + crate::driver::run_ok(
                        self.address(),
                        crate::modules::neopixel::enable_plan(3, 48),
                    ),
                Err(e) => exists|end: Self|
                    crate::devices::bring_up_failed(
                        crate::devices::log(self),
                        #[trigger] crate::devices::log(end),
                        self.address(),
                        HardwareId::SAMD09.code(),
                        crate::modules::neopixel::enable_plan(3, 48),
                        e,
                    ),
            },
    {
        let mut dev = self;
        let ghost before = crate::devices::log(self);
        let ghost addr = self.address();
        match dev.reset_and_verify_seesaw() {
            Ok(()) => {},
            Err(e) => {
                proof {
                    if let SeesawError::InvalidHardwareId(id) = e {
                        assert(crate::devices::log(dev) =~= before
                            + crate::modules::status::verified_reset_events(addr, id));
                    }
                }
                assert(crate::devices::bring_up_failed(
                    before,
                    crate::devices::log(dev),
                    addr,
                    HardwareId::SAMD09.code(),
                    crate::modules::neopixel::enable_plan(3, 48),
                    e,
                ));
                return Err(e);
            },
        }
        assert(crate::devices::log(dev) =~= before
            + crate::modules::status::verified_reset_events(
                addr,
                HardwareId::SAMD09.code(),
            ));
        proof {
            <<Self as NeopixelModule<D>>::Color as crate::modules::neopixel::PixelColor>
                ::size_is_three_or_four();
        }
        match dev.enable_neopixel() {
            Ok(()) => Ok(dev),
            Err(e) => {
                assert(crate::devices::bring_up_failed(
                    before,
                    crate::devices::log(dev),
                    addr,
                    HardwareId::SAMD09.code(),
                    crate::modules::neopixel::enable_plan(3, 48),
                    e,
                ));
                Err(e)
            },
        }
    }
}

impl<D: DriverExt> NeoTrellis<D> {
    /// Sets the color of the LED under the key in column `x` of row `y`.
    pub fn set_xy_neopixel_color(&mut self, x: u8, y: u8, color: NeoTrellisColor) -> (r: Result<
        (),
        SeesawError<D::Error>,
    >)
        requires
            y * 4 + x < 16,
        ensures
            final(self).address() == old(self).address(),
            r is Err ==> r->Err_0 is I2c,
            crate::driver::wrote(
                crate::devices::log(*old(self)),
                crate::devices::log(*final(self)),
                old(self).address(),
                crate::modules::neopixel::SET_BUF,
                crate::modules::neopixel::nth_payload(led_index(x, y), color),
                crate::driver::DELAY_TIME as nat,
                crate::error::bus_result(r),
            ),
    {
        self.set_nth_neopixel_color((y * Self::NUM_COLS + x) as usize, color)
    }
}

/// What the type declares of the peripheral: where the chip answers, what it
/// is built on, and how its capabilities are wired.
pub proof fn lemma_declared<D: DriverExt>()
    ensures
        <NeoTrellis<D> as SeesawDevice>::DEFAULT_ADDR == 0x2E,
        <NeoTrellis<D> as SeesawDevice>::HARDWARE_ID == HardwareId::SAMD09,
        <NeoTrellis<D> as SeesawDevice>::PRODUCT_ID == 3954,
        <NeoTrellis<D> as NeopixelModule<D>>::N_LEDS == 16,
        <NeoTrellis<D> as NeopixelModule<D>>::PIN == 3,
        <NeoTrellis<D> as KeypadModule<D>>::NUM_COLS == 4,
        <NeoTrellis<D> as KeypadModule<D>>::NUM_ROWS == 4,
{
}

} // verus!
