//! Analog input: one 16-bit conversion per read.
use vstd::prelude::*;
use crate::devices::SeesawDevice;
use crate::driver::{DriverExt, Reg};
use crate::error::SeesawError;
use crate::modules::HardwareId;

verus! {

/// RO - 8 bits
pub const STATUS: Reg = [0x09, 0x00];

/// WO - 8 bits
/// Writing a 1 to any bit in this register enables the corresponding interrupt.
/// Writing zeros to this register has no effect.
pub const INTENSET: Reg = [0x09, 0x02];

/// NOT SUPPORTED BY SEESAW PLATFORM
///
/// WO - 8 bits
/// Writing a 1 to any bit in this register enables the corresponding interrupt.
/// Writing zeros to this register has no effect.
pub const INTENCLR: Reg = [0x09, 0x03];

/// NOT SUPPORTED BY SEESAW PLATFORM
///
/// WO
/// Writing 1 to this register sets window control.
pub const WINMODE: Reg = [0x09, 0x04];

/// NOT SUPPORTED BY SEESAW PLATFORM
///
/// WO - 32 bits
/// This register sets the threshold values for window mode.
/// B31 - B16: High threshold
/// B15 - B0: Low threshold
pub const WINTHRESH: Reg = [0x09, 0x05];

/// RO - 16bits
/// ADC value for channel 0
pub const CHANNEL_0: Reg = [0x09, 0x07];

/// The highest pin whose channel register still has an address.
pub const LAST_PIN: u8 = 248;

/// The conversion channel behind a pin. On the SAMD09 pins 2 to 5 are
/// channels 0 to 3 and every other pin falls on channel 0; on the ATtiny
/// variants the pin number is the channel number.
pub open spec fn adc_channel(hw: HardwareId, pin: u8) -> u8 {
    match hw {
        HardwareId::SAMD09 => if pin == 3 {
            1
        } else if pin == 4 {
            2
        } else if pin == 5 {
            3
        } else {
            0
        },
        _ => pin,
    }
}

/// The register that holds the conversion of a pin: the channel registers
/// follow each other from channel 0 on.
pub open spec fn adc_register(hw: HardwareId, pin: u8) -> Reg {
    [0x09u8, (0x07 + adc_channel(hw, pin)) as u8]
}

/// Computes the conversion channel behind a pin.
pub fn adc_channel_of(hw: HardwareId, pin: u8) -> (channel: u8)
    ensures
        channel == adc_channel(hw, pin),
{
    match hw {
        HardwareId::SAMD09 => match pin {
            2 => 0,
            3 => 1,
            4 => 2,
            5 => 3,
            _ => 0,
        },
        _ => pin,
    }
}

/// The ADC provides the ability to measure analog voltages at 10-bit
/// resolution. The SAMD09 seesaw has 4 ADC inputs, the Attiny8x7 has 11 ADC
/// inputs.
///
/// The module base register address for the ADC is 0x09
///
/// Conversions can be read by reading the corresponding CHANNEL register.
///
/// When reading ADC data, there should be at least a 500 uS delay between
/// writing the register number you would like to read from and attempting to
/// read the data.
///
/// Allow a delay of at least 1ms in between sequential ADC reads on different
/// channels.
pub trait AdcModule<D: DriverExt>: SeesawDevice<Driver = D> {
    /// Reads the conversion of the channel behind `pin`.
    fn analog_read(&mut self, pin: u8) -> (r: Result<u16, SeesawError<D::Error>>)
        requires
            adc_channel(Self::HARDWARE_ID, pin) <= LAST_PIN,
        ensures
            final(self).address() == old(self).address(),
            match r {
                Ok(value) => crate::devices::log(*final(self)) == crate::devices::log(*old(self))
                    + crate::driver::read_ok(
                    old(self).address(),
                    adc_register(Self::HARDWARE_ID, pin),
                    crate::driver::DELAY_TIME as nat,
                    crate::codec::be16(value),
                ),
                Err(SeesawError::I2c(e)) => crate::driver::read_failed(
                    crate::devices::log(*old(self)),
                    crate::devices::log(*final(self)),
                    old(self).address(),
                    adc_register(Self::HARDWARE_ID, pin),
                    crate::driver::DELAY_TIME as nat,
                    2,
                    e,
                ),
                Err(SeesawError::InvalidHardwareId(_)) => false,
            },
    {
        let pin_offset = adc_channel_of(Self::HARDWARE_ID, pin);
        let reg: Reg = [CHANNEL_0[0], CHANNEL_0[1] + pin_offset];
        assert(reg == adc_register(Self::HARDWARE_ID, pin));
        let addr = self.addr();
        crate::error::from_bus(self.driver().read_u16(addr, &reg))
    }
}

} // verus!
