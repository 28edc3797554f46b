//! The 1x4 arcade button board: four buttons, four dimmable LEDs.
use vstd::prelude::*;
use crate::devices::{SeesawDevice, SeesawDeviceInit};
use crate::driver::DriverExt;
use crate::error::SeesawError;
use crate::modules::gpio::{GpioModule, PinMode};
use crate::modules::status::StatusModule;
use crate::modules::timer::TimerModule;
use crate::modules::HardwareId;

verus! {

/// The pins of the four buttons, SW1 to SW4.
pub const BUTTON_PINS: [u8; 4] = [18, 19, 20, 2];

/// The pins of the four LEDs, PWM1 to PWM4.
pub const LED_PINS: [u8; 4] = [12, 13, 0, 1];

/// ArcadeButton1x4
///
/// Button | Pin | GPIO
/// ---|---|---
/// SW1 | 18 | PA01
/// SW2 | 19 | PA02
/// SW3 | 20 | PA03
/// SW4 | 2 | PA06
///
/// LED | PIN | GPIO
/// ---|---|---
/// PWM1 | 12 | PC00
/// PWM2 | 13 | PC01
/// PWM3 | 0 | PA04
/// PWM4 | 1 | PA05
///
#[derive(Debug)]
pub struct ArcadeButton1x4<D> {
    addr: u8,
    driver: D,
}

impl<D: DriverExt> SeesawDevice for ArcadeButton1x4<D> {
    type Driver = D;

    const DEFAULT_ADDR: u8 = 0x3A;

    const HARDWARE_ID: HardwareId = HardwareId::ATTINY817;

    const PRODUCT_ID: u16 = 5296;

    closed spec fn address(&self) -> u8 {
        self.addr
    }

    closed spec fn bus(&self) -> D {
        self.driver
    }

    fn addr(&self) -> (a: u8) {
        self.addr
    }

    fn driver(&mut self) -> (d: &mut D) {
        &mut self.driver
    }

    fn new(addr: u8, driver: D) -> (dev: Self) {
        ArcadeButton1x4 { addr, driver }
    }

    fn new_with_default_addr(driver: D) -> (dev: Self)
        ensures
            dev.address() == 0x3A,
    {
        ArcadeButton1x4 { addr: Self::DEFAULT_ADDR, driver }
    }
}

impl<D: DriverExt> GpioModule<D> for ArcadeButton1x4<D> {

}

impl<D: DriverExt> TimerModule<D> for ArcadeButton1x4<D> {

}

/// The steps that make one button pin an input with pull-up.
pub open spec fn pull_up(pin: u8) -> Seq<crate::driver::Step> {
    crate::modules::gpio::pin_mode_plan(crate::modules::gpio::pin_mask(pin), PinMode::InputPullup)
}

/// The steps that make the four buttons readable, SW1 first.
pub open spec fn buttons_plan() -> Seq<crate::driver::Step> {
    pull_up(18) + pull_up(19) + pull_up(20) + pull_up(2)
}

/// The writes that set the four LEDs, PWM1 first: one channel and one duty
/// cycle each.
pub open spec fn duty_plan(pwms: Seq<u8>) -> Seq<crate::driver::Step> {
    Seq::new(
        4,
        |i: int|
            crate::driver::Step::Write {
                reg: crate::modules::timer::PWM_VAL,
                payload: seq![
                    crate::modules::timer::pwm_channel(HardwareId::ATTINY817, LED_PINS[i]),
                    pwms[i],
                ],
            },
    )
}

/// The events of reading the port once for each word of `bulks`, which are
/// the words that were read.
pub open spec fn port_reads<E>(addr: u8, bulks: Seq<u32>) -> Seq<crate::driver::BusEvent<E>>
    decreases bulks.len(),
{
    if bulks.len() == 0 {
        Seq::empty()
    } else {
        port_reads::<E>(addr, bulks.drop_last()) + crate::driver::read_ok::<E>(
            addr,
            crate::modules::gpio::GPIO,
            crate::driver::DELAY_TIME as nat,
            crate::codec::be32(bulks.last()),
        )
    }
}

impl<D: DriverExt> SeesawDeviceInit<D> for ArcadeButton1x4<D> {
    /// Resets the chip, checks that it is the expected one, and makes the
    /// buttons readable.
    fn init(self) -> (r: Result<Self, SeesawError<D::Error>>)
        ensures
            match r {
                Ok(dev) => crate::devices::log(dev) == crate::devices::log(self)
                    + crate::modules::status::verified_reset_events(
                        self.address(),
                        HardwareId::ATTINY817.code(),
                    ) + crate::driver::run_ok(self.address(), buttons_plan()),
                Err(e) => exists|end: Self|
                    crate::devices::bring_up_failed(
                        crate::devices::log(self),
                        #[trigger] crate::devices::log(end),
                        self.address(),
                        HardwareId::ATTINY817.code(),
                        buttons_plan(),
                        e,
                    ),
            },
    {
        let mut dev = self;
        let ghost before = crate::devices::log(self);
        let ghost addr = self.address();
        match dev.reset_and_verify_seesaw() {
            Ok(()) => {},
            Err(e) => {
                proof {
                    if let SeesawError::InvalidHardwareId(id) = e {
                        assert(crate::devices::log(dev) =~= before
                            + crate::modules::status::verified_reset_events(addr, id));
                    }
                }
                assert(crate::devices::bring_up_failed(
                    before,
                    crate::devices::log(dev),
                    addr,
                    HardwareId::ATTINY817.code(),
                    buttons_plan(),
                    e,
                ));
                return Err(e);
            },
        }
        assert(crate::devices::log(dev) =~= before
            + crate::modules::status::verified_reset_events(
                addr,
                HardwareId::ATTINY817.code(),
            ));
        match dev.enable_buttons() {
            Ok(()) => Ok(dev),
            Err(e) => {
                assert(crate::devices::bring_up_failed(
                    before,
                    crate::devices::log(dev),
                    addr,
                    HardwareId::ATTINY817.code(),
                    buttons_plan(),
                    e,
                ));
                Err(e)
            },
        }
    }
}

impl<D: DriverExt> ArcadeButton1x4<D> {
    /// Reads the four buttons, SW1 first, with one read of the port for
    /// each. Stops at the first read that fails.
    pub fn button_values(&mut self) -> (r: Result<[bool; 4], SeesawError<D::Error>>)
        ensures
            final(self).address() == old(self).address(),
            match r {
                Ok(values) => exists|bulks: Seq<u32>|
                    {
                        &&& bulks.len() == 4
                        &&& crate::devices::log(*final(self)) == crate::devices::log(*old(self))
                            + #[trigger] port_reads(old(self).address(), bulks)
                        &&& forall|i: int|
                            0 <= i < 4 ==> values[i] == crate::modules::gpio::pin_level(
                                bulks[i],
                                BUTTON_PINS[i],
                            )
                    },
                Err(SeesawError::I2c(e)) => exists|bulks: Seq<u32>|
                    {
                        &&& bulks.len() < 4
                        &&& crate::driver::read_failed(
                            crate::devices::log(*old(self)) + #[trigger] port_reads(
                                old(self).address(),
                                bulks,
                            ),
                            crate::devices::log(*final(self)),
                            old(self).address(),
                            crate::modules::gpio::GPIO,
                            crate::driver::DELAY_TIME as nat,
                            4,
                            e,
                        )
                    },
                Err(SeesawError::InvalidHardwareId(_)) => false,
            },
    {
        let ghost before = crate::devices::log(*self);
        let ghost addr = self.address();
        let ghost mut bulks: Seq<u32> = Seq::empty();
        let mut values: [bool; 4] = [false, false, false, false];
        let mut i: usize = 0;
        assert(before =~= before + port_reads::<D::Error>(addr, bulks));
        while i < 4
            invariant
                i <= 4,
                bulks.len() == i,
                self.address() == old(self).address(),
                addr == self.address(),
                before == crate::devices::log(*old(self)),
                crate::devices::log(*self) == before + port_reads::<D::Error>(addr, bulks),
                forall|j: int|
                    0 <= j < i ==> values[j] == crate::modules::gpio::pin_level(
                        bulks[j],
                        BUTTON_PINS[j],
                    ),
            decreases 4 - i,
        {
            let ghost mid = crate::devices::log(*self);
            match self.digital_read(BUTTON_PINS[i]) {
                Ok(level) => {
                    proof {
                        let bulk = choose|bulk: u32|
                            level == crate::modules::gpio::pin_level(bulk, BUTTON_PINS[i as int])
                                && crate::devices::log(*self) == mid + crate::driver::read_ok(
                                addr,
                                crate::modules::gpio::GPIO,
                                crate::driver::DELAY_TIME as nat,
                                #[trigger] crate::codec::be32(bulk),
                            );
                        let more = bulks.push(bulk);
                        assert(more.drop_last() =~= bulks);
                        assert(crate::devices::log(*self) =~= before + port_reads::<D::Error>(
                            addr,
                            more,
                        ));
                        bulks = more;
                    }
                    values[i] = level;
                },
                Err(e) => {
                    return Err(e);
                },
            }
            i += 1;
        }
        Ok(values)
    }

    /// Set the pin mode of the 4 buttons to input pullup:
    pub fn enable_buttons(&mut self) -> (r: Result<(), SeesawError<D::Error>>)
        ensures
            final(self).address() == old(self).address(),
            r is Err ==> r->Err_0 is I2c,
            crate::driver::ran(
                crate::devices::log(*old(self)),
                crate::devices::log(*final(self)),
                old(self).address(),
                buttons_plan(),
                crate::error::bus_result(r),
            ),
    {
        let ghost before = crate::devices::log(*self);
        let ghost addr = self.address();
        let ghost a = pull_up(18);
        let ghost b = pull_up(19);
        let ghost c = pull_up(20);
        let ghost d = pull_up(2);
        proof {
            assert(buttons_plan() =~= a + (b + c + d));
            assert(buttons_plan() =~= (a + b) + (c + d));
            assert(buttons_plan() =~= (a + b + c) + d);
        }
        let r = self.set_pin_mode(18, PinMode::InputPullup);
        let ghost l1 = crate::devices::log(*self);
        if r.is_err() {
            proof {
                crate::driver::lemma_ran_stopped_early(
                    before,
                    l1,
                    addr,
                    a,
                    b + c + d,
                    crate::error::bus_result(r)->Err_0,
                );
            }
            return r;
        }
        let r = self.set_pin_mode(19, PinMode::InputPullup);
        let ghost l2 = crate::devices::log(*self);
        proof {
            crate::driver::lemma_ran_then(before, l1, l2, addr, a, b, crate::error::bus_result(r));
        }
        if r.is_err() {
            proof {
                crate::driver::lemma_ran_stopped_early(
                    before,
                    l2,
                    addr,
                    a + b,
                    c + d,
                    crate::error::bus_result(r)->Err_0,
                );
            }
            return r;
        }
        let r = self.set_pin_mode(20, PinMode::InputPullup);
        let ghost l3 = crate::devices::log(*self);
        proof {
            crate::driver::lemma_ran_then(
                before,
                l2,
                l3,
                addr,
                a + b,
                c,
                crate::error::bus_result(r),
            );
        }
        if r.is_err() {
            proof {
                crate::driver::lemma_ran_stopped_early(
                    before,
                    l3,
                    addr,
                    a + b + c,
                    d,
                    crate::error::bus_result(r)->Err_0,
                );
            }
            return r;
        }
        let r = self.set_pin_mode(2, PinMode::InputPullup);
        proof {
            crate::driver::lemma_ran_then(
                before,
                l3,
                crate::devices::log(*self),
                addr,
                a + b + c,
                d,
                crate::error::bus_result(r),
            );
        }
        r
    }

    /// Sets the brightness of the four LEDs, PWM1 first. Stops at the first
    /// write that the transport refuses.
    pub fn set_led_duty_cycles(&mut self, pwms: &[u8; 4]) -> (r: Result<
        (),
        SeesawError<D::Error>,
    >)
        ensures
            final(self).address() == old(self).address(),
            r is Err ==> r->Err_0 is I2c,
            crate::driver::ran(
                crate::devices::log(*old(self)),
                crate::devices::log(*final(self)),
                old(self).address(),
                duty_plan(pwms@),
                crate::error::bus_result(r),
            ),
    {
        let ghost before = crate::devices::log(*self);
        let ghost addr = self.address();
        let ghost plan = duty_plan(pwms@);
        proof {
            crate::driver::lemma_run_ok_start(before, addr, plan);
            crate::driver::lemma_run_ok_end::<D::Error>(addr, plan);
        }
        let mut i: usize = 0;
        while i < 4
            invariant
                i <= 4,
                plan == duty_plan(pwms@),
                self.address() == old(self).address(),
                addr == self.address(),
                before == crate::devices::log(*old(self)),
                crate::devices::log(*self) == before + crate::driver::run_ok::<D::Error>(
                    addr,
                    plan.take(i as int),
                ),
            decreases 4 - i,
        {
            let ghost mid = crate::devices::log(*self);
            let r = self.analog_write(LED_PINS[i], pwms[i]);
            proof {
                crate::driver::lemma_run_write(
                    before,
                    mid,
                    crate::devices::log(*self),
                    addr,
                    plan,
                    i as int,
                    crate::error::bus_result(r),
                );
            }
            if r.is_err() {
                return r;
            }
            i += 1;
        }
        Ok(())
    }
}

/// What the type declares of the peripheral: where the chip answers, what it
/// is built on, and how its capabilities are wired.
pub proof fn lemma_declared<D: DriverExt>()
    ensures
        <ArcadeButton1x4<D> as SeesawDevice>::DEFAULT_ADDR == 0x3A,
        <ArcadeButton1x4<D> as SeesawDevice>::HARDWARE_ID == HardwareId::ATTINY817,
        <ArcadeButton1x4<D> as SeesawDevice>::PRODUCT_ID == 5296,
{
}

} // verus!
