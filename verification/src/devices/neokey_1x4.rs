//! The NeoKey 1x4: four key switches, each with an LED under it.
use vstd::prelude::*;
use crate::devices::{SeesawDevice, SeesawDeviceInit};
use crate::driver::DriverExt;
use crate::error::SeesawError;
use crate::modules::gpio::{GpioModule, PinMode};
use crate::modules::neopixel::NeopixelModule;
use crate::modules::status::StatusModule;
use crate::modules::HardwareId;

verus! {

/// The pins of the four keys: bits 4 to 7 of the port.
pub const KEY_PINS: u32 = 0xF0;

/// NeoKey1x4
#[derive(Debug)]
pub struct NeoKey1x4<D> {
    addr: u8,
    driver: D,
}

impl<D: DriverExt> SeesawDevice for NeoKey1x4<D> {
    type Driver = D;

    const DEFAULT_ADDR: u8 = 0x30;

    const HARDWARE_ID: HardwareId = HardwareId::SAMD09;

    const PRODUCT_ID: u16 = 4980;

    closed spec fn address(&self) -> u8 {
        self.addr
    }

    closed spec fn bus(&self) -> D {
        self.driver
    }

    fn addr(&self) -> (a: u8) {
        self.addr
    }

    fn driver(&mut self) -> (d: &mut D) {
        &mut self.driver
    }

    fn new(addr: u8, driver: D) -> (dev: Self) {
        NeoKey1x4 { addr, driver }
    }

    fn new_with_default_addr(driver: D) -> (dev: Self)
        ensures
            dev.address() == 0x30,
    {
        NeoKey1x4 { addr: Self::DEFAULT_ADDR, driver }
    }
}

pub type NeoKey1x4Color = rgb::Grb<u8>;

impl<D: DriverExt> GpioModule<D> for NeoKey1x4<D> {

}

impl<D: DriverExt> NeopixelModule<D> for NeoKey1x4<D> {
    type Color = NeoKey1x4Color;

    const N_LEDS: usize = 4;

    const PIN: u8 = 3;

    proof fn strip_fits() {
        <Self::Color as crate::modules::neopixel::PixelColor>::size_is_three_or_four();
    }
}

/// The state of the four keys in a port word: bits 4 to 7, moved down to
/// bits 0 to 3. A key that is held down reads as 0.
pub open spec fn keys_of(bulk: u32) -> u8 {
    ((bulk >> 4) & 0xF) as u8
}

/// The steps that bring the board up after its reset: the key pins become
/// inputs with pull-up, then the LED output is set up.
pub open spec fn init_plan() -> Seq<crate::driver::Step> {
    crate::modules::gpio::pin_mode_plan(KEY_PINS, PinMode::InputPullup)
        + crate::modules::neopixel::enable_plan(3, 12)
}

impl<D: DriverExt> SeesawDeviceInit<D> for NeoKey1x4<D> {
    /// Resets the chip, checks that it is the expected one, makes the keys
    /// readable and sets up the LED output.
    fn init(self) -> (r: Result<Self, SeesawError<D::Error>>)
        ensures
            match r {
                Ok(dev) => crate::devices::log(dev) == crate::devices::log(self)
                    + crate::modules::status::verified_reset_events(
                        self.address(),
                        HardwareId::SAMD09.code(),
                    ) + crate::driver::run_ok(self.address(), init_plan()),
                Err(e) => exists|end: Self|
                    crate::devices::bring_up_failed(
                        crate::devices::log(self),
                        #[trigger] crate::devices::log(end),
                        self.address(),
                        HardwareId::SAMD09.code(),
                        init_plan(),
                        e,
                    ),
            },
    {
        let mut dev = self;
        let ghost before = crate::devices::log(self);
        let ghost addr = self.address();
        match dev.reset_and_verify_seesaw() {
            Ok(()) => {},
            Err(e) => {
                proof {
                    if let SeesawError::InvalidHardwareId(id) = e {
                        assert(crate::devices::log(dev) =~= before
                            + crate::modules::status::verified_reset_events(addr, id));
                    }
                }
                assert(crate::devices::bring_up_failed(
                    before,
                    crate::devices::log(dev),
                    addr,
                    HardwareId::SAMD09.code(),
                    init_plan(),
                    e,
                ));
                return Err(e);
            },
        }
        assert(crate::devices::log(dev) =~= before
            + crate::modules::status::verified_reset_events(
                addr,
                HardwareId::SAMD09.code(),
            ));
        match dev.configure() {
            Ok(()) => Ok(dev),
            Err(e) => {
                assert(crate::devices::bring_up_failed(
                    before,
                    crate::devices::log(dev),
                    addr,
                    HardwareId::SAMD09.code(),
                    init_plan(),
                    e,
                ));
                Err(e)
            },
        }
    }
}

impl<D: DriverExt> NeoKey1x4<D> {
    /// Makes the four key pins inputs with pull-up.
    pub fn enable_button_pins(&mut self) -> (r: Result<(), SeesawError<D::Error>>)
        ensures
            final(self).address() == old(self).address(),
            r is Err ==> r->Err_0 is I2c,
            crate::driver::ran(
                crate::devices::log(*old(self)),
                crate::devices::log(*final(self)),
                old(self).address(),
                crate::modules::gpio::pin_mode_plan(KEY_PINS, PinMode::InputPullup),
                crate::error::bus_result(r),
            ),
    {
        assert((1u32 << 4) | (1u32 << 5) | (1u32 << 6) | (1u32 << 7) == 0xF0u32) by (bit_vector);
        self.set_pin_mode_bulk((1 << 4) | (1 << 5) | (1 << 6) | (1 << 7), PinMode::InputPullup)
    }

    /// Reads the state of the four keys with one read of the port.
    pub fn keys(&mut self) -> (r: Result<u8, SeesawError<D::Error>>)
        ensures
            final(self).address() == old(self).address(),
            match r {
                Ok(keys) => exists|bulk: u32|
                    {
                        &&& keys == keys_of(bulk)
                        &&& crate::devices::log(*final(self)) == crate::devices::log(*old(self))
                            + crate::driver::read_ok(
                            old(self).address(),
                            crate::modules::gpio::GPIO,
                            crate::driver::DELAY_TIME as nat,
                            #[trigger] crate::codec::be32(bulk),
                        )
                    },
                Err(SeesawError::I2c(e)) => crate::driver::read_failed(
                    crate::devices::log(*old(self)),
                    crate::devices::log(*final(self)),
                    old(self).address(),
                    crate::modules::gpio::GPIO,
                    crate::driver::DELAY_TIME as nat,
                    4,
                    e,
                ),
                Err(SeesawError::InvalidHardwareId(_)) => false,
            },
    {
        match self.digital_read_bulk() {
            Ok(bulk) => Ok(((bulk >> 4) & 0xF) as u8),
            Err(e) => Err(e),
        }
    }
}

impl<D: DriverExt> NeoKey1x4<D> {
    /// The part of the bring-up that follows the reset.
    fn configure(&mut self) -> (r: Result<(), SeesawError<D::Error>>)
        ensures
            final(self).address() == old(self).address(),
            r is Err ==> r->Err_0 is I2c,
            crate::driver::ran(
                crate::devices::log(*old(self)),
                crate::devices::log(*final(self)),
                old(self).address(),
                init_plan(),
                crate::error::bus_result(r),
            ),
    {
        proof {
            <NeoKey1x4Color as crate::modules::neopixel::PixelColor>::size_is_three_or_four();
        }
        let ghost before = crate::devices::log(*self);
        let ghost addr = self.address();
        let ghost a = crate::modules::gpio::pin_mode_plan(KEY_PINS, PinMode::InputPullup);
        let ghost b = crate::modules::neopixel::enable_plan(3, 12);
        let r = self.enable_button_pins();
        let ghost mid = crate::devices::log(*self);
        if r.is_err() {
            proof {
                crate::driver::lemma_ran_stopped_early(
                    before,
                    mid,
                    addr,
                    a,
                    b,
                    crate::error::bus_result(r)->Err_0,
                );
            }
            return r;
        }
        let r = self.enable_neopixel();
        proof {
            crate::driver::lemma_ran_then(
                before,
                mid,
                crate::devices::log(*self),
                addr,
                a,
                b,
                crate::error::bus_result(r),
            );
        }
        r
    }
}

/// What the type declares of the peripheral: where the chip answers, what it
/// is built on, and how its capabilities are wired.
pub proof fn lemma_declared<D: DriverExt>()
    ensures
        <NeoKey1x4<D> as SeesawDevice>::DEFAULT_ADDR == 0x30,
        <NeoKey1x4<D> as SeesawDevice>::HARDWARE_ID == HardwareId::SAMD09,
        <NeoKey1x4<D> as SeesawDevice>::PRODUCT_ID == 4980,
        <NeoKey1x4<D> as NeopixelModule<D>>::N_LEDS == 4,
        <NeoKey1x4<D> as NeopixelModule<D>>::PIN == 3,
{
}

} // verus!
