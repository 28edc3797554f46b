//! Digital input and output: pin levels and pin modes, 32 pins at a time.
use vstd::prelude::*;
use vstd::std_specs::convert::FromSpecImpl;
use crate::devices::SeesawDevice;
use crate::driver::{DriverExt, Reg};
use crate::error::SeesawError;

verus! {

/// WO - 32 bits
/// Writing a 1 to any bit in this register sets the direction of the
/// corresponding pin to OUTPUT. Writing 0 has no effect.
pub const SET_OUTPUT: Reg = [0x01, 0x02];

/// WO - 32 bits
/// Writing a 1 to any bit in this register sets the direction of the
/// corresponding pin to INPUT. Writing 0 has no effect.
pub const SET_INPUT: Reg = [0x01, 0x03];

/// WR - 32 bits
/// When written to, all bits that are set to 0 will have their
/// corresponding pins set LOW. All bits that are set to 1 will
/// have their corresponding pins set HIGH.
/// Reading this register reads all pins on PORTA of the seesaw device.
pub const GPIO: Reg = [0x01, 0x04];

/// WO - 32 bits
/// Writing a 1 to any bit in this register writes the corresponding pin
/// HIGH. Writing 0 has no effect.
pub const SET_HIGH: Reg = [0x01, 0x05];

/// WO - 32 bits
/// Writing a 1 to any bit in this register writes the corresponding pin
/// LOW. Writing 0 has no effect.
pub const SET_LOW: Reg = [0x01, 0x06];

/// W0 - 32 bits
/// Writing a 1 to any bit in this register toggles the corresponding pin.
/// Writing 0 has no effect.
pub const TOGGLE: Reg = [0x01, 0x07];

/// WO - 32 bits
/// Writing a 1 to any bit in this register enables the interrupt on the
/// corresponding pin. When the value on this pin changes, the corresponding
/// bit will be set in the INTFLAG register. Writing 0 has no effect.
pub const INT_ENABLE: Reg = [0x01, 0x08];

/// WO - 32 bits
/// Writing a 1 to any bit in this register disables the interrupt on the
/// corresponding pin. Writing 0 has no effect.
pub const INT_DISABLE: Reg = [0x01, 0x09];

/// RO - 32 bits
/// This register hold the status of all GPIO interrupts.
/// When an interrupt fires, the corresponding bit in this register gets
/// set. Reading this register clears all interrupts.
pub const INT_FLAG: Reg = [0x01, 0x0A];

/// WO - 32 bits
/// Writing a 1 to any bit in this register enables the internal pullup or
/// pulldown on the corresponding pin. The pull direction (up/down) is
/// determined by the GPIO (output) value - if the corresponding GPIO
/// register bit is low,  its a pulldown. High, its a pullup. Writing 0 has
/// no effect.
pub const PULL_ENABLE: Reg = [0x01, 0x0B];

/// WO - 32 bits
/// Writing a 1 to any bit in this register disables the pull up/down on the
/// corresponding pin. Writing 0 has no effect.
pub const PULL_DISABLE: Reg = [0x01, 0x0C];

#[derive(Clone, Copy, Debug, PartialEq, Eq, Structural)]
pub enum PinMode {
    Input,
    Output,
    Pullup,
    InputPullup,
    Pulldown,
    InputPulldown,
    OpenDrain,
    OutputOpenDrain,
    Special,
    Function1,
    Function2,
    Function3,
    Function4,
    Function5,
    Function6,
    Analog,
}

impl PinMode {
    /// The mode's number.
    pub open spec fn code(self) -> u8 {
        match self {
            PinMode::Input => 0x01,
            PinMode::Output => 0x02,
            PinMode::Pullup => 0x04,
            PinMode::InputPullup => 0x05,
            PinMode::Pulldown => 0x08,
            PinMode::InputPulldown => 0x09,
            PinMode::OpenDrain => 0x10,
            PinMode::OutputOpenDrain => 0x12,
            PinMode::Special => 0xF0,
            PinMode::Function1 => 0x00,
            PinMode::Function2 => 0x20,
            PinMode::Function3 => 0x40,
            PinMode::Function4 => 0x60,
            PinMode::Function5 => 0x80,
            PinMode::Function6 => 0xA0,
            PinMode::Analog => 0xC0,
        }
    }

    /// The modes a pin can be put in through this capability.
    pub open spec fn supported(self) -> bool {
        self == PinMode::Input || self == PinMode::Output || self == PinMode::InputPullup || self
            == PinMode::InputPulldown
    }

    /// Whether the mode is one a pin can be put in through this capability.
    pub fn is_supported(self) -> (b: bool)
        ensures
            b == self.supported(),
    {
        match self {
            PinMode::Input | PinMode::Output | PinMode::InputPullup | PinMode::InputPulldown => true,
            _ => false,
        }
    }
}

impl From<PinMode> for u8 {
    fn from(value: PinMode) -> (b: u8) {
        match value {
            PinMode::Input => 0x01,
            PinMode::Output => 0x02,
            PinMode::Pullup => 0x04,
            PinMode::InputPullup => 0x05,
            PinMode::Pulldown => 0x08,
            PinMode::InputPulldown => 0x09,
            PinMode::OpenDrain => 0x10,
            PinMode::OutputOpenDrain => 0x12,
            PinMode::Special => 0xF0,
            PinMode::Function1 => 0x00,
            PinMode::Function2 => 0x20,
            PinMode::Function3 => 0x40,
            PinMode::Function4 => 0x60,
            PinMode::Function5 => 0x80,
            PinMode::Function6 => 0xA0,
            PinMode::Analog => 0xC0,
        }
    }
}

impl FromSpecImpl<PinMode> for u8 {
    open spec fn obeys_from_spec() -> bool {
        true
    }

    open spec fn from_spec(value: PinMode) -> u8 {
        value.code()
    }
}

#[derive(Clone, Copy, Debug, PartialEq, Eq, Structural)]
pub enum InterruptMode {
    Disabled,
    Rising,
    Falling,
    Change,
    Onlow,
    Onhigh,
    OnlowWe,
    OnhighWe,
}

impl InterruptMode {
    /// The mode's number.
    pub open spec fn code(self) -> u8 {
        match self {
            InterruptMode::Disabled => 0x00,
            InterruptMode::Rising => 0x01,
            InterruptMode::Falling => 0x02,
            InterruptMode::Change => 0x03,
            InterruptMode::Onlow => 0x04,
            InterruptMode::Onhigh => 0x05,
            InterruptMode::OnlowWe => 0x0C,
            InterruptMode::OnhighWe => 0x0D,
        }
    }
}

impl From<InterruptMode> for u8 {
    fn from(value: InterruptMode) -> (b: u8) {
        match value {
            InterruptMode::Disabled => 0x00,
            InterruptMode::Rising => 0x01,
            InterruptMode::Falling => 0x02,
            InterruptMode::Change => 0x03,
            InterruptMode::Onlow => 0x04,
            InterruptMode::Onhigh => 0x05,
            InterruptMode::OnlowWe => 0x0C,
            InterruptMode::OnhighWe => 0x0D,
        }
    }
}

impl FromSpecImpl<InterruptMode> for u8 {
    open spec fn obeys_from_spec() -> bool {
        true
    }

    open spec fn from_spec(value: InterruptMode) -> u8 {
        value.code()
    }
}

/// The logical level of pin `pin` in a port word. The wiring this protocol
/// assumes pulls a pin up, so a raw 1 means "not asserted": the level is the
/// negation of the raw bit.
pub open spec fn pin_level(bulk: u32, pin: u8) -> bool {
    (bulk >> pin) & 1 != 1
}

/// The mask with only the bit of `pin` set.
pub open spec fn pin_mask(pin: u8) -> u32 {
    1u32 << pin
}

/// The register writes that put the pins of `pins` in mode `mode`.
///
/// Plain input and plain output take one write. An input with a pull takes
/// three, in this order: make the pins inputs, enable the pull, then set the
/// level, which gives the pull its direction (the chip has no register for
/// the direction of a pull).
pub open spec fn pin_mode_plan(pins: u32, mode: PinMode) -> Seq<crate::driver::Step> {
    let mask = crate::codec::be32(pins);
    match mode {
        PinMode::Output => seq![crate::driver::Step::Write { reg: GPIO, payload: mask }],
        PinMode::Input => seq![crate::driver::Step::Write { reg: SET_INPUT, payload: mask }],
        PinMode::InputPullup => seq![
            crate::driver::Step::Write { reg: SET_INPUT, payload: mask },
            crate::driver::Step::Write { reg: PULL_ENABLE, payload: mask },
            crate::driver::Step::Write { reg: SET_HIGH, payload: mask },
        ],
        PinMode::InputPulldown => seq![
            crate::driver::Step::Write { reg: SET_INPUT, payload: mask },
            crate::driver::Step::Write { reg: PULL_ENABLE, payload: mask },
            crate::driver::Step::Write { reg: SET_LOW, payload: mask },
        ],
        _ => Seq::empty(),
    }
}

/// The level that `digital_read` reports for a pin is the negation of the
/// pin's bit in the word that `digital_read_bulk` reports, for each of the
/// 32 pins.
pub proof fn lemma_level_negates_bit(bulk: u32, pin: u8)
    requires
        pin < 32,
    ensures
        pin_level(bulk, pin) == !crate::modules::bit(bulk, pin as u32),
{
    assert(((bulk >> pin) & 1 != 1) == !((bulk >> (pin as u32)) & 1 == 1)) by (bit_vector)
        requires
            pin < 32,
    ;
}

/// A pull-up is set-input, enable-pull, set-high: exactly three writes, in
/// that order. A pull-down differs in the last only, which is set-low.
pub proof fn lemma_pull_plans(pins: u32)
    ensures
        pin_mode_plan(pins, PinMode::InputPullup).len() == 3,
        pin_mode_plan(pins, PinMode::InputPullup)[0] == (crate::driver::Step::Write {
            reg: SET_INPUT,
            payload: crate::codec::be32(pins),
        }),
        pin_mode_plan(pins, PinMode::InputPullup)[1] == (crate::driver::Step::Write {
            reg: PULL_ENABLE,
            payload: crate::codec::be32(pins),
        }),
        pin_mode_plan(pins, PinMode::InputPullup)[2] == (crate::driver::Step::Write {
            reg: SET_HIGH,
            payload: crate::codec::be32(pins),
        }),
        pin_mode_plan(pins, PinMode::InputPulldown).len() == 3,
        pin_mode_plan(pins, PinMode::InputPulldown)[0] == pin_mode_plan(
            pins,
            PinMode::InputPullup,
        )[0],
        pin_mode_plan(pins, PinMode::InputPulldown)[1] == pin_mode_plan(
            pins,
            PinMode::InputPullup,
        )[1],
        pin_mode_plan(pins, PinMode::InputPulldown)[2] == (crate::driver::Step::Write {
            reg: SET_LOW,
            payload: crate::codec::be32(pins),
        }),
{
}

/// The GPIO module provides every day input and outputs. You'll get logic GPIO
/// pins that can act as outputs or inputs. With pullups or pulldowns. When
/// inputs, you can also create pin-change interrupts that are routed the the
/// IRQ pin.
///
/// On SAMD09-based boards the GPIO is 3V only.
///
/// On ATtiny-based boards, the GPIO logic is whatever the power pin is, 3V or
/// 5V.
///
/// The module base register address for the GPIO module is 0x01.
pub trait GpioModule<D: DriverExt>: SeesawDevice<Driver = D> {
    /// Reads the logical level of one pin.
    fn digital_read(&mut self, pin: u8) -> (r: Result<bool, SeesawError<D::Error>>)
        requires
            pin < 32,
        ensures
            final(self).address() == old(self).address(),
            match r {
                Ok(level) => exists|bulk: u32|
                    {
                        &&& level == pin_level(bulk, pin)
                        &&& crate::devices::log(*final(self)) == crate::devices::log(*old(self))
                            + crate::driver::read_ok(
                            old(self).address(),
                            GPIO,
                            crate::driver::DELAY_TIME as nat,
                            #[trigger] crate::codec::be32(bulk),
                        )
                    },
                Err(SeesawError::I2c(e)) => crate::driver::read_failed(
                    crate::devices::log(*old(self)),
                    crate::devices::log(*final(self)),
                    old(self).address(),
                    GPIO,
                    crate::driver::DELAY_TIME as nat,
                    4,
                    e,
                ),
                Err(SeesawError::InvalidHardwareId(_)) => false,
            },
    {
        match self.digital_read_bulk() {
            Ok(pins) => Ok((pins >> pin) & 0x1 != 1),
            Err(e) => Err(e),
        }
    }

    /// Reads the raw state of all 32 pins.
    fn digital_read_bulk(&mut self) -> (r: Result<u32, SeesawError<D::Error>>)
        ensures
            final(self).address() == old(self).address(),
            match r {
                Ok(bulk) => crate::devices::log(*final(self)) == crate::devices::log(*old(self))
                    + crate::driver::read_ok(
                    old(self).address(),
                    GPIO,
                    crate::driver::DELAY_TIME as nat,
                    crate::codec::be32(bulk),
                ),
                Err(SeesawError::I2c(e)) => crate::driver::read_failed(
                    crate::devices::log(*old(self)),
                    crate::devices::log(*final(self)),
                    old(self).address(),
                    GPIO,
                    crate::driver::DELAY_TIME as nat,
                    4,
                    e,
                ),
                Err(SeesawError::InvalidHardwareId(_)) => false,
            },
    {
        let addr = self.addr();
        match self.driver().read_u32(addr, &GPIO) {
            Ok(bulk) => Ok(bulk),
            Err(e) => Err(SeesawError::I2c(e)),
        }
    }

    /// Puts one pin in mode `mode`.
    fn set_pin_mode(&mut self, pin: u8, mode: PinMode) -> (r: Result<(), SeesawError<D::Error>>)
        requires
            pin < 32,
            mode.supported(),
        ensures
            final(self).address() == old(self).address(),
            r is Err ==> r->Err_0 is I2c,
            crate::driver::ran(
                crate::devices::log(*old(self)),
                crate::devices::log(*final(self)),
                old(self).address(),
                pin_mode_plan(pin_mask(pin), mode),
                crate::error::bus_result(r),
            ),
    {
        self.set_pin_mode_bulk(1u32 << pin, mode)
    }

    /// Puts every pin whose bit is set in `pins` in mode `mode`.
    fn set_pin_mode_bulk(&mut self, pins: u32, mode: PinMode) -> (r: Result<
        (),
        SeesawError<D::Error>,
    >)
        requires
            mode.supported(),
        ensures
            final(self).address() == old(self).address(),
            r is Err ==> r->Err_0 is I2c,
            crate::driver::ran(
                crate::devices::log(*old(self)),
                crate::devices::log(*final(self)),
                old(self).address(),
                pin_mode_plan(pins, mode),
                crate::error::bus_result(r),
            ),
    {
        let addr = self.addr();
        let ghost before = crate::devices::log(*self);
        let ghost plan = pin_mode_plan(pins, mode);
        proof {
            crate::driver::lemma_run_ok_start(before, addr, plan);
            crate::driver::lemma_run_ok_end::<D::Error>(addr, plan);
        }
        match mode {
            PinMode::Output => {
                let r = self.driver().write_u32(addr, &GPIO, pins);
                proof {
                    crate::driver::lemma_run_write(
                        before,
                        before,
                        crate::devices::log(*self),
                        addr,
                        plan,
                        0,
                        r,
                    );
                }
                crate::error::from_bus(r)
            },
            PinMode::Input => {
                let r = self.driver().write_u32(addr, &SET_INPUT, pins);
                proof {
                    crate::driver::lemma_run_write(
                        before,
                        before,
                        crate::devices::log(*self),
                        addr,
                        plan,
                        0,
                        r,
                    );
                }
                crate::error::from_bus(r)
            },
            _ => {
                let r = self.driver().write_u32(addr, &SET_INPUT, pins);
                let ghost first = crate::devices::log(*self);
                proof {
                    crate::driver::lemma_run_write(before, before, first, addr, plan, 0, r);
                }
                if r.is_err() {
                    return crate::error::from_bus(r);
                }
                let r = self.driver().write_u32(addr, &PULL_ENABLE, pins);
                let ghost second = crate::devices::log(*self);
                proof {
                    crate::driver::lemma_run_write(before, first, second, addr, plan, 1, r);
                }
                if r.is_err() {
                    return crate::error::from_bus(r);
                }
                let r = match mode {
                    PinMode::InputPullup => self.driver().write_u32(addr, &SET_HIGH, pins),
                    _ => self.driver().write_u32(addr, &SET_LOW, pins),
                };
                proof {
                    crate::driver::lemma_run_write(
                        before,
                        second,
                        crate::devices::log(*self),
                        addr,
                        plan,
                        2,
                        r,
                    );
                }
                crate::error::from_bus(r)
            },
        }
    }
}

} // verus!
