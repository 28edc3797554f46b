//! Rotary encoders: position, movement since the last read, push button.
use vstd::prelude::*;
use crate::devices::SeesawDevice;
use crate::driver::{DriverExt, Reg};
use crate::error::SeesawError;
use crate::modules::gpio::{GpioModule, PinMode};

verus! {

pub const STATUS: Reg = [0x11, 0x00];

pub const INT_SET: Reg = [0x11, 0x10];

pub const INT_CLR: Reg = [0x11, 0x20];

pub const POSITION: Reg = [0x11, 0x30];

pub const DELTA: Reg = [0x11, 0x40];

/// The register of one encoder of a chip: the encoder's index is or-ed into
/// the low bits of the function byte of the register of encoder 0.
pub open spec fn encoder_register(base: Reg, encoder: usize) -> Reg {
    [base[0], base[1] | (encoder as u8)]
}

/// Computes the register of one encoder.
pub fn encoder_register_of(base: &Reg, encoder: usize) -> (reg: Reg)
    ensures
        reg == encoder_register(*base, encoder),
{
    [base[0], base[1] | (encoder as u8)]
}

/// The steps that make the button of an encoder readable: its pin becomes an
/// input with pull-up, and the pin is given time to settle.
pub open spec fn enable_button_plan(pin: u8) -> Seq<crate::driver::Step> {
    crate::modules::gpio::pin_mode_plan(
        crate::modules::gpio::pin_mask(pin),
        PinMode::InputPullup,
    ).push(crate::driver::Step::Pause { us: crate::driver::DELAY_TIME as nat })
}

pub trait EncoderModule<D: DriverExt, const N_ENCODERS: usize>: GpioModule<D> {
    /// The pin that the push button of each encoder is wired to.
    const ENCODER_BTN_PINS: [u8; N_ENCODERS];

    /// Every button pin is one of the 32 pins of the port.
    proof fn button_pins_in_port()
        ensures
            forall|i: int| 0 <= i < N_ENCODERS ==> (#[trigger] Self::ENCODER_BTN_PINS[i]) < 32,
    ;

    /// Makes the button of encoder `encoder` readable.
    fn enable_button(&mut self, encoder: usize) -> (r: Result<(), SeesawError<D::Error>>)
        requires
            encoder < N_ENCODERS,
        ensures
            final(self).address() == old(self).address(),
            r is Err ==> r->Err_0 is I2c,
            crate::driver::ran(
                crate::devices::log(*old(self)),
                crate::devices::log(*final(self)),
                old(self).address(),
                enable_button_plan(Self::ENCODER_BTN_PINS[encoder as int]),
                crate::error::bus_result(r),
            ),
    {
        let pins = Self::ENCODER_BTN_PINS;
        let pin = pins[encoder];
        proof {
            Self::button_pins_in_port();
        }
        let ghost before = crate::devices::log(*self);
        let ghost addr = self.address();
        let ghost head = crate::modules::gpio::pin_mode_plan(
            crate::modules::gpio::pin_mask(pin),
            PinMode::InputPullup,
        );
        let ghost plan = enable_button_plan(pin);
        match self.set_pin_mode(pin, PinMode::InputPullup) {
            Ok(()) => {
                let ghost mid = crate::devices::log(*self);
                self.driver().delay_us(crate::driver::DELAY_TIME);
                proof {
                    assert(plan.take(3) =~= head);
                    crate::driver::lemma_run_pause(
                        before,
                        mid,
                        crate::devices::log(*self),
                        addr,
                        plan,
                        3,
                    );
                    crate::driver::lemma_run_ok_end::<D::Error>(addr, plan);
                }
                Ok(())
            },
            Err(e) => {
                proof {
                    let err = crate::error::bus_result::<(), D::Error>(Err(e))->Err_0;
                    let k = choose|k: int|
                        0 <= k < head.len() && head[k] is Write && crate::devices::log(*self)
                            == before + #[trigger] crate::driver::run_stopped(addr, head, k, err);
                    assert(plan.take(k) =~= head.take(k));
                    assert(crate::driver::run_stopped(addr, plan, k, err)
                        == crate::driver::run_stopped(addr, head, k, err));
                }
                Err(e)
            },
        }
    }

    /// Whether the button of encoder `encoder` reads as logical high.
    fn button(&mut self, encoder: usize) -> (r: Result<bool, SeesawError<D::Error>>)
        requires
            encoder < N_ENCODERS,
        ensures
            final(self).address() == old(self).address(),
            match r {
                Ok(level) => exists|bulk: u32|
                    {
                        &&& level == crate::modules::gpio::pin_level(
                            bulk,
                            Self::ENCODER_BTN_PINS[encoder as int],
                        )
                        &&& crate::devices::log(*final(self)) == crate::devices::log(*old(self))
                            + crate::driver::read_ok(
                            old(self).address(),
                            crate::modules::gpio::GPIO,
                            crate::driver::DELAY_TIME as nat,
                            #[trigger] crate::codec::be32(bulk),
                        )
                    },
                Err(SeesawError::I2c(e)) => crate::driver::read_failed(
                    crate::devices::log(*old(self)),
                    crate::devices::log(*final(self)),
                    old(self).address(),
                    crate::modules::gpio::GPIO,
                    crate::driver::DELAY_TIME as nat,
                    4,
                    e,
                ),
                Err(SeesawError::InvalidHardwareId(_)) => false,
            },
    {
        let pins = Self::ENCODER_BTN_PINS;
        proof {
            Self::button_pins_in_port();
        }
        self.digital_read(pins[encoder])
    }

    /// How far encoder `encoder` has turned since this was last read.
    fn delta(&mut self, encoder: usize) -> (r: Result<i32, SeesawError<D::Error>>)
        ensures
            final(self).address() == old(self).address(),
            match r {
                Ok(value) => crate::devices::log(*final(self)) == crate::devices::log(*old(self))
                    + crate::driver::read_ok(
                    old(self).address(),
                    encoder_register(DELTA, encoder),
                    crate::driver::DELAY_TIME as nat,
                    crate::codec::be32(value as u32),
                ),
                Err(SeesawError::I2c(e)) => crate::driver::read_failed(
                    crate::devices::log(*old(self)),
                    crate::devices::log(*final(self)),
                    old(self).address(),
                    encoder_register(DELTA, encoder),
                    crate::driver::DELAY_TIME as nat,
                    4,
                    e,
                ),
                Err(SeesawError::InvalidHardwareId(_)) => false,
            },
    {
        let addr = self.addr();
        let reg = encoder_register_of(&DELTA, encoder);
        crate::error::from_bus(self.driver().read_i32(addr, &reg))
    }

    /// Stops encoder `encoder` from raising the interrupt line.
    fn disable_interrupt(&mut self, encoder: usize) -> (r: Result<(), SeesawError<D::Error>>)
        ensures
            final(self).address() == old(self).address(),
            r is Err ==> r->Err_0 is I2c,
            crate::driver::wrote(
                crate::devices::log(*old(self)),
                crate::devices::log(*final(self)),
                old(self).address(),
                encoder_register(INT_CLR, encoder),
                seq![1u8],
                crate::driver::DELAY_TIME as nat,
                crate::error::bus_result(r),
            ),
    {
        let addr = self.addr();
        let reg = encoder_register_of(&INT_CLR, encoder);
        crate::error::from_bus(self.driver().write_u8(addr, &reg, 1))
    }

    /// Lets encoder `encoder` raise the interrupt line when it turns.
    fn enable_interrupt(&mut self, encoder: usize) -> (r: Result<(), SeesawError<D::Error>>)
        ensures
            final(self).address() == old(self).address(),
            r is Err ==> r->Err_0 is I2c,
            crate::driver::wrote(
                crate::devices::log(*old(self)),
                crate::devices::log(*final(self)),
                old(self).address(),
                encoder_register(INT_SET, encoder),
                seq![1u8],
                crate::driver::DELAY_TIME as nat,
                crate::error::bus_result(r),
            ),
    {
        let addr = self.addr();
        let reg = encoder_register_of(&INT_SET, encoder);
        crate::error::from_bus(self.driver().write_u8(addr, &reg, 1))
    }

    /// The position counter of encoder `encoder`.
    fn position(&mut self, encoder: usize) -> (r: Result<i32, SeesawError<D::Error>>)
        ensures
            final(self).address() == old(self).address(),
            match r {
                Ok(value) => crate::devices::log(*final(self)) == crate::devices::log(*old(self))
                    + crate::driver::read_ok(
                    old(self).address(),
                    encoder_register(POSITION, encoder),
                    crate::driver::DELAY_TIME as nat,
                    crate::codec::be32(value as u32),
                ),
                Err(SeesawError::I2c(e)) => crate::driver::read_failed(
                    crate::devices::log(*old(self)),
                    crate::devices::log(*final(self)),
                    old(self).address(),
                    encoder_register(POSITION, encoder),
                    crate::driver::DELAY_TIME as nat,
                    4,
                    e,
                ),
                Err(SeesawError::InvalidHardwareId(_)) => false,
            },
    {
        let addr = self.addr();
        let reg = encoder_register_of(&POSITION, encoder);
        crate::error::from_bus(self.driver().read_i32(addr, &reg))
    }

    /// Sets the position counter of encoder `encoder`.
    fn set_position(&mut self, encoder: usize, pos: i32) -> (r: Result<
        (),
        SeesawError<D::Error>,
    >)
        ensures
            final(self).address() == old(self).address(),
            r is Err ==> r->Err_0 is I2c,
            crate::driver::wrote(
                crate::devices::log(*old(self)),
                crate::devices::log(*final(self)),
                old(self).address(),
                encoder_register(POSITION, encoder),
                crate::codec::be32(pos as u32),
                crate::driver::DELAY_TIME as nat,
                crate::error::bus_result(r),
            ),
    {
        let addr = self.addr();
        let reg = encoder_register_of(&POSITION, encoder);
        crate::error::from_bus(self.driver().write_i32(addr, &reg, pos))
    }
}

} // verus!
