//! PWM output through the timer module.
use vstd::prelude::*;
use crate::devices::SeesawDevice;
use crate::driver::{DriverExt, Reg};
use crate::error::SeesawError;
use crate::modules::HardwareId;

verus! {

/// WO - 16 bits
/// The first byte of the register indicates which PWM pin will have its value
/// set The second byte is the actual PWM value
pub const PWM_VAL: Reg = [0x08, 0x01];

/// The PWM channel behind a pin. On the SAMD09 pins 4 to 7 are channels 0
/// to 3 and every other pin falls on channel 0; on the ATtiny variants the
/// pin number is the channel number.
pub open spec fn pwm_channel(hw: HardwareId, pin: u8) -> u8 {
    match hw {
        HardwareId::SAMD09 => if pin == 5 {
            1
        } else if pin == 6 {
            2
        } else if pin == 7 {
            3
        } else {
            0
        },
        _ => pin,
    }
}

/// Computes the PWM channel behind a pin.
pub fn pwm_channel_of(hw: HardwareId, pin: u8) -> (channel: u8)
    ensures
        channel == pwm_channel(hw, pin),
{
    match hw {
        HardwareId::SAMD09 => match pin {
            4 => 0,
            5 => 1,
            6 => 2,
            7 => 3,
            _ => 0,
        },
        _ => pin,
    }
}

/// The PWM module provides up to 4 8-bit PWM outputs.
/// The module base register address for the PWM module is 0x08.
/// PWM outputs are available on pins PA04, PA05, PA06, and PA07.
pub trait TimerModule<D: DriverExt>: SeesawDevice<Driver = D> {
    /// Write a PWM value to a PWM-enabled pin
    ///
    /// On the SAMD09 breakout, the pin corresponds to the number on the
    /// silkscreen. On the default seesaw firmware on the SAMD09 breakout,
    /// pins 5, 6, and 7 are PWM enabled.
    ///
    /// Channel and value travel as the two bytes of one register write.
    fn analog_write(&mut self, pin: u8, value: u8) -> (r: Result<(), SeesawError<D::Error>>)
        ensures
            final(self).address() == old(self).address(),
            r is Err ==> r->Err_0 is I2c,
            crate::driver::wrote(
                crate::devices::log(*old(self)),
                crate::devices::log(*final(self)),
                old(self).address(),
                PWM_VAL,
                seq![pwm_channel(Self::HARDWARE_ID, pin), value],
                crate::driver::DELAY_TIME as nat,
                crate::error::bus_result(r),
            ),
    {
        let mapped_pin = pwm_channel_of(Self::HARDWARE_ID, pin);
        let addr = self.addr();
        let packed = crate::codec::u16_from_be([mapped_pin, value]);
        proof {
            let pair: [u8; 2] = [mapped_pin, value];
            assert(pair@ =~= seq![mapped_pin, value]);
            crate::codec::lemma_be16_unique(pair@);
        }
        crate::error::from_bus(self.driver().write_u16(addr, &PWM_VAL, packed))
    }
}

} // verus!
