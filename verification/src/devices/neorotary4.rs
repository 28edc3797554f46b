//! The NeoRotary 4: four rotary encoders with push buttons and LEDs.
use vstd::prelude::*;
use crate::devices::{SeesawDevice, SeesawDeviceInit};
use crate::driver::DriverExt;
use crate::error::SeesawError;
use crate::modules::encoder::EncoderModule;
use crate::modules::gpio::GpioModule;
use crate::modules::neopixel::NeopixelModule;
use crate::modules::status::StatusModule;
use crate::modules::HardwareId;

verus! {

/// Anecdotally, I've had a lot of issues with the quad rotary encoder.
///
/// Specifically, calls to set/reset the encoders' position seem to have no
/// effect on the firmware's internal position counters.
#[derive(Debug)]
pub struct NeoRotary4<D> {
    addr: u8,
    driver: D,
}

impl<D: DriverExt> SeesawDevice for NeoRotary4<D> {
    type Driver = D;

    const DEFAULT_ADDR: u8 = 0x49;

    const HARDWARE_ID: HardwareId = HardwareId::ATTINY817;

    const PRODUCT_ID: u16 = 5752;

    closed spec fn address(&self) -> u8 {
        self.addr
    }

    closed spec fn bus(&self) -> D {
        self.driver
    }

    fn addr(&self) -> (a: u8) {
        self.addr
    }

    fn driver(&mut self) -> (d: &mut D) {
        &mut self.driver
    }

    fn new(addr: u8, driver: D) -> (dev: Self) {
        NeoRotary4 { addr, driver }
    }

    fn new_with_default_addr(driver: D) -> (dev: Self)
        ensures
            dev.address() == 0x49,
    {
        NeoRotary4 { addr: Self::DEFAULT_ADDR, driver }
    }
}

pub type NeoRotary4Color = rgb::Grb<u8>;

impl<D: DriverExt> GpioModule<D> for NeoRotary4<D> {

}

impl<D: DriverExt> EncoderModule<D, 4> for NeoRotary4<D> {
    const ENCODER_BTN_PINS: [u8; 4] = [12, 14, 17, 9];

    proof fn button_pins_in_port() {
    }
}

impl<D: DriverExt> NeopixelModule<D> for NeoRotary4<D> {
    type Color = NeoRotary4Color;

    const N_LEDS: usize = 4;

    const PIN: u8 = 18;

    proof fn strip_fits() {
        <Self::Color as crate::modules::neopixel::PixelColor>::size_is_three_or_four();
    }
}

/// The steps that bring the board up after its reset: the buttons of the
/// four encoders are made readable, first to last, then the LED output is
/// set up.
pub open spec fn init_plan() -> Seq<crate::driver::Step> {
    crate::modules::encoder::enable_button_plan(12)
        + crate::modules::encoder::enable_button_plan(14)
        + crate::modules::encoder::enable_button_plan(17)
        + crate::modules::encoder::enable_button_plan(9) + crate::modules::neopixel::enable_plan(
        18,
        12,
    )
}

impl<D: DriverExt> SeesawDeviceInit<D> for NeoRotary4<D> {
    /// Resets the chip, checks that it is the expected one, makes the four
    /// buttons readable and sets up the LED output.
    fn init(self) -> (r: Result<Self, SeesawError<D::Error>>)
        ensures
            match r {
                Ok(dev) => crate::devices::log(dev) == crate::devices::log(self)
                    + crate::modules::status::verified_reset_events(
                        self.address(),
                        HardwareId::ATTINY817.code(),
                    ) + crate::driver::run_ok(self.address(), init_plan()),
                Err(e) => exists|end: Self|
                    crate::devices::bring_up_failed(
                        crate::devices::log(self),
                        #[trigger] crate::devices::log(end),
                        self.address(),
                        HardwareId::ATTINY817.code(),
                        init_plan(),
                        e,
                    ),
            },
    {
        let mut dev = self;
        let ghost before = crate::devices::log(self);
        let ghost addr = self.address();
        match dev.reset_and_verify_seesaw() {
            Ok(()) => {},
            Err(e) => {
                proof {
                    if let SeesawError::InvalidHardwareId(id) = e {
                        assert(crate::devices::log(dev) =~= before
                            + crate::modules::status::verified_reset_events(addr, id));
                    }
                }
                assert(crate::devices::bring_up_failed(
                    before,
                    crate::devices::log(dev),
                    addr,
                    HardwareId::ATTINY817.code(),
                    init_plan(),
                    e,
                ));
                return Err(e);
            },
        }
        assert(crate::devices::log(dev) =~= before
            + crate::modules::status::verified_reset_events(
                addr,
                HardwareId::ATTINY817.code(),
            ));
        match dev.configure() {
            Ok(()) => Ok(dev),
            Err(e) => {
                assert(crate::devices::bring_up_failed(
                    before,
                    crate::devices::log(dev),
                    addr,
                    HardwareId::ATTINY817.code(),
                    init_plan(),
                    e,
                ));
                Err(e)
            },
        }
    }
}

impl<D: DriverExt> NeoRotary4<D> {
    /// The part of the bring-up that follows the reset.
    fn configure(&mut self) -> (r: Result<(), SeesawError<D::Error>>)
        ensures
            final(self).address() == old(self).address(),
            r is Err ==> r->Err_0 is I2c,
            crate::driver::ran(
                crate::devices::log(*old(self)),
                crate::devices::log(*final(self)),
                old(self).address(),
                init_plan(),
                crate::error::bus_result(r),
            ),
    {
        proof {
            <NeoRotary4Color as crate::modules::neopixel::PixelColor>::size_is_three_or_four();
        }
        let ghost before = crate::devices::log(*self);
        let ghost addr = self.address();
        let ghost a = crate::modules::encoder::enable_button_plan(12);
        let ghost b = crate::modules::encoder::enable_button_plan(14);
        let ghost c = crate::modules::encoder::enable_button_plan(17);
        let ghost d = crate::modules::encoder::enable_button_plan(9);
        let ghost e = crate::modules::neopixel::enable_plan(18, 12);
        proof {
            assert(init_plan() =~= a + (b + c + d + e));
            assert(init_plan() =~= (a + b) + (c + d + e));
            assert(init_plan() =~= (a + b + c) + (d + e));
            assert(init_plan() =~= (a + b + c + d) + e);
        }
        let r = self.enable_button(0);
        let ghost l1 = crate::devices::log(*self);
        if r.is_err() {
            proof {
                crate::driver::lemma_ran_stopped_early(
                    before,
                    l1,
                    addr,
                    a,
                    b + c + d + e,
                    crate::error::bus_result(r)->Err_0,
                );
            }
            return r;
        }
        let r = self.enable_button(1);
        let ghost l2 = crate::devices::log(*self);
        proof {
            crate::driver::lemma_ran_then(
                before,
                l1,
                l2,
                addr,
                a,
                b,
                crate::error::bus_result(r),
            );
        }
        if r.is_err() {
            proof {
                crate::driver::lemma_ran_stopped_early(
                    before,
                    l2,
                    addr,
                    a + b,
                    c + d + e,
                    crate::error::bus_result(r)->Err_0,
                );
            }
            return r;
        }
        let r = self.enable_button(2);
        let ghost l3 = crate::devices::log(*self);
        proof {
            crate::driver::lemma_ran_then(
                before,
                l2,
                l3,
                addr,
                a + b,
                c,
                crate::error::bus_result(r),
            );
        }
        if r.is_err() {
            proof {
                crate::driver::lemma_ran_stopped_early(
                    before,
                    l3,
                    addr,
                    a + b + c,
                    d + e,
                    crate::error::bus_result(r)->Err_0,
                );
            }
            return r;
        }
        let r = self.enable_button(3);
        let ghost l4 = crate::devices::log(*self);
        proof {
            crate::driver::lemma_ran_then(
                before,
                l3,
                l4,
                addr,
                a + b + c,
                d,
                crate::error::bus_result(r),
            );
        }
        if r.is_err() {
            proof {
                crate::driver::lemma_ran_stopped_early(
                    before,
                    l4,
                    addr,
                    a + b + c + d,
                    e,
                    crate::error::bus_result(r)->Err_0,
                );
            }
            return r;
        }
        let r = self.enable_neopixel();
        let ghost l5 = crate::devices::log(*self);
        proof {
            crate::driver::lemma_ran_then(
                before,
                l4,
                l5,
                addr,
                a + b + c + d,
                e,
                crate::error::bus_result(r),
            );
        }
        r
    }
}

/// What the type declares of the peripheral: where the chip answers, what it
/// is built on, and how its capabilities are wired.
pub proof fn lemma_declared<D: DriverExt>()
    ensures
        <NeoRotary4<D> as SeesawDevice>::DEFAULT_ADDR == 0x49,
        <NeoRotary4<D> as SeesawDevice>::HARDWARE_ID == HardwareId::ATTINY817,
        <NeoRotary4<D> as SeesawDevice>::PRODUCT_ID == 5752,
        <NeoRotary4<D> as NeopixelModule<D>>::N_LEDS == 4,
        <NeoRotary4<D> as NeopixelModule<D>>::PIN == 18,
        <NeoRotary4<D> as EncoderModule<D, 4>>::ENCODER_BTN_PINS@ == seq![12u8, 14u8, 17u8, 9u8],
{
    assert(<NeoRotary4<D> as EncoderModule<D, 4>>::ENCODER_BTN_PINS@ =~= seq![12u8, 14u8, 17u8, 9u8]);
}

} // verus!
