//! Status: identity, options, version, temperature and reset.
use vstd::prelude::*;
use vstd::std_specs::convert::FromSpecImpl;
use crate::devices::SeesawDevice;
use crate::driver::{DriverExt, Reg};
use crate::error::SeesawError;

verus! {

pub const STATUS_HW_ID: Reg = [0x00, 0x01];

pub const STATUS_VERSION: Reg = [0x00, 0x02];

pub const STATUS_OPTIONS: Reg = [0x00, 0x03];

pub const STATUS_TEMP: Reg = [0x00, 0x04];

pub const STATUS_SWRST: Reg = [0x00, 0x7F];

/// Microseconds the chip takes to come back after a reset command.
pub const RESET_TIME: u32 = 125_000;

/// The events of a reset that the transport carried out: the reset command
/// with its settle delay, then the time the chip takes to reboot.
pub open spec fn reset_events<E>(addr: u8) -> Seq<crate::driver::BusEvent<E>> {
    crate::driver::write_ok(
        addr,
        STATUS_SWRST,
        seq![0xFFu8],
        crate::driver::DELAY_TIME as nat,
    ).push(crate::driver::BusEvent::Delay { us: RESET_TIME as nat })
}

/// `after` is `before` followed by a reset command that the transport
/// refused with `e`.
pub open spec fn reset_refused<E>(
    before: Seq<crate::driver::BusEvent<E>>,
    after: Seq<crate::driver::BusEvent<E>>,
    addr: u8,
    e: E,
) -> bool {
    after == before + crate::driver::write_refused(addr, STATUS_SWRST, seq![0xFFu8], e)
}

/// The events of a reset after which the chip answered the identity read
/// with `id`.
pub open spec fn verified_reset_events<E>(addr: u8, id: u8) -> Seq<crate::driver::BusEvent<E>> {
    reset_events(addr) + crate::driver::read_ok(
        addr,
        STATUS_HW_ID,
        crate::driver::DELAY_TIME as nat,
        seq![id],
    )
}

/// The status capability. Every device has it.
pub trait StatusModule<D: DriverExt>: SeesawDevice<Driver = D> {
    /// Reads the options word and tells which modules it announces.
    fn capabilities(&mut self) -> (r: Result<DeviceCapabilities, SeesawError<D::Error>>)
        ensures
            final(self).address() == old(self).address(),
            match r {
                Ok(caps) => exists|options: u32|
                    {
                        &&& caps == DeviceCapabilities::of(options)
                        &&& crate::devices::log(*final(self)) == crate::devices::log(*old(self))
                            + crate::driver::read_ok(
                            old(self).address(),
                            STATUS_OPTIONS,
                            crate::driver::DELAY_TIME as nat,
                            #[trigger] crate::codec::be32(options),
                        )
                    },
                Err(SeesawError::I2c(e)) => crate::driver::read_failed(
                    crate::devices::log(*old(self)),
                    crate::devices::log(*final(self)),
                    old(self).address(),
                    STATUS_OPTIONS,
                    crate::driver::DELAY_TIME as nat,
                    4,
                    e,
                ),
                Err(SeesawError::InvalidHardwareId(_)) => false,
            },
    {
        let addr = self.addr();
        match self.driver().read_u32(addr, &STATUS_OPTIONS) {
            Ok(opts) => Ok(DeviceCapabilities::from_options(opts)),
            Err(e) => Err(SeesawError::I2c(e)),
        }
    }

    /// Reads the identity byte of the chip.
    fn hardware_id(&mut self) -> (r: Result<u8, SeesawError<D::Error>>)
        ensures
            final(self).address() == old(self).address(),
            match r {
                Ok(id) => crate::devices::log(*final(self)) == crate::devices::log(*old(self))
                    + crate::driver::read_ok(
                    old(self).address(),
                    STATUS_HW_ID,
                    crate::driver::DELAY_TIME as nat,
                    seq![id],
                ),
                Err(SeesawError::I2c(e)) => crate::driver::read_failed(
                    crate::devices::log(*old(self)),
                    crate::devices::log(*final(self)),
                    old(self).address(),
                    STATUS_HW_ID,
                    crate::driver::DELAY_TIME as nat,
                    1,
                    e,
                ),
                Err(SeesawError::InvalidHardwareId(_)) => false,
            },
    {
        let addr = self.addr();
        match self.driver().read_u8(addr, &STATUS_HW_ID) {
            Ok(id) => Ok(id),
            Err(e) => Err(SeesawError::I2c(e)),
        }
    }

    /// Sends the reset command and waits until the chip has rebooted.
    fn reset(&mut self) -> (r: Result<(), SeesawError<D::Error>>)
        ensures
            final(self).address() == old(self).address(),
            match r {
                Ok(_) => crate::devices::log(*final(self)) == crate::devices::log(*old(self))
                    + reset_events(old(self).address()),
                Err(SeesawError::I2c(e)) => reset_refused(
                    crate::devices::log(*old(self)),
                    crate::devices::log(*final(self)),
                    old(self).address(),
                    e,
                ),
                Err(SeesawError::InvalidHardwareId(_)) => false,
            },
    {
        let addr = self.addr();
        match self.driver().write_u8(addr, &STATUS_SWRST, 0xFF) {
            Ok(()) => {
                self.driver().delay_us(RESET_TIME);
                assert(crate::devices::log(*self) =~= crate::devices::log(*old(self))
                    + reset_events(addr));
                Ok(())
            },
            Err(e) => Err(SeesawError::I2c(e)),
        }
    }

    /// Reads the version word: product number and build date of the firmware.
    fn product_info(&mut self) -> (r: Result<ProductDateCode, SeesawError<D::Error>>)
        ensures
            final(self).address() == old(self).address(),
            match r {
                Ok(info) => exists|version: u32|
                    {
                        &&& info == ProductDateCode::of(version)
                        &&& crate::devices::log(*final(self)) == crate::devices::log(*old(self))
                            + crate::driver::read_ok(
                            old(self).address(),
                            STATUS_VERSION,
                            crate::driver::DELAY_TIME as nat,
                            #[trigger] crate::codec::be32(version),
                        )
                    },
                Err(SeesawError::I2c(e)) => crate::driver::read_failed(
                    crate::devices::log(*old(self)),
                    crate::devices::log(*final(self)),
                    old(self).address(),
                    STATUS_VERSION,
                    crate::driver::DELAY_TIME as nat,
                    4,
                    e,
                ),
                Err(SeesawError::InvalidHardwareId(_)) => false,
            },
    {
        let addr = self.addr();
        match self.driver().read_u32(addr, &STATUS_VERSION) {
            Ok(version) => Ok(ProductDateCode::from_version(version)),
            Err(e) => Err(SeesawError::I2c(e)),
        }
    }

    /// Resets the chip, then reads its identity and holds it against the one
    /// this device type declares. Succeeds exactly if the transport carried
    /// both operations and the chip answered with the declared identity; a
    /// chip that answers with another byte is reported with that byte.
    fn reset_and_verify_seesaw(&mut self) -> (r: Result<(), SeesawError<D::Error>>)
        ensures
            final(self).address() == old(self).address(),
            match r {
                Ok(_) => crate::devices::log(*final(self)) == crate::devices::log(*old(self))
                    + reset_events(old(self).address()) + crate::driver::read_ok(
                    old(self).address(),
                    STATUS_HW_ID,
                    crate::driver::DELAY_TIME as nat,
                    seq![Self::HARDWARE_ID.code()],
                ),
                Err(SeesawError::InvalidHardwareId(id)) => {
                    &&& id != Self::HARDWARE_ID.code()
                    &&& crate::devices::log(*final(self)) == crate::devices::log(*old(self))
                        + reset_events(old(self).address()) + crate::driver::read_ok(
                        old(self).address(),
                        STATUS_HW_ID,
                        crate::driver::DELAY_TIME as nat,
                        seq![id],
                    )
                },
                Err(SeesawError::I2c(e)) => {
                    ||| reset_refused(
                        crate::devices::log(*old(self)),
                        crate::devices::log(*final(self)),
                        old(self).address(),
                        e,
                    )
                    ||| crate::driver::read_failed(
                        crate::devices::log(*old(self)) + reset_events(old(self).address()),
                        crate::devices::log(*final(self)),
                        old(self).address(),
                        STATUS_HW_ID,
                        crate::driver::DELAY_TIME as nat,
                        1,
                        e,
                    )
                },
            },
    {
        let expected = Self::HARDWARE_ID.into_u8();
        match self.reset() {
            Ok(()) => {},
            Err(e) => {
                return Err(e);
            },
        }
        match self.hardware_id() {
            Ok(id) => {
                if id == expected {
                    Ok(())
                } else {
                    Err(SeesawError::InvalidHardwareId(id))
                }
            },
            Err(e) => Err(e),
        }
    }

    /// Reads the temperature register: degrees Celsius as a fixed-point
    /// number with 16 fractional bits.
    fn temp_raw(&mut self) -> (r: Result<u32, SeesawError<D::Error>>)
        ensures
            final(self).address() == old(self).address(),
            match r {
                Ok(raw) => crate::devices::log(*final(self)) == crate::devices::log(*old(self))
                    + crate::driver::read_ok(
                    old(self).address(),
                    STATUS_TEMP,
                    crate::driver::DELAY_TIME as nat,
                    crate::codec::be32(raw),
                ),
                Err(SeesawError::I2c(e)) => crate::driver::read_failed(
                    crate::devices::log(*old(self)),
                    crate::devices::log(*final(self)),
                    old(self).address(),
                    STATUS_TEMP,
                    crate::driver::DELAY_TIME as nat,
                    4,
                    e,
                ),
                Err(SeesawError::InvalidHardwareId(_)) => false,
            },
    {
        let addr = self.addr();
        match self.driver().read_u32(addr, &STATUS_TEMP) {
            Ok(raw) => Ok(raw),
            Err(e) => Err(SeesawError::I2c(e)),
        }
    }
}

/// All devices implement the status module
impl<D: DriverExt, T: SeesawDevice<Driver = D>> StatusModule<D> for T {

}

/// Which modules the firmware of a chip was built with.
#[derive(Copy, Clone, Debug, PartialEq, Eq, Structural)]
pub struct DeviceCapabilities {
    pub adc: bool,
    pub dac: bool,
    pub dap: bool,
    pub eeprom: bool,
    pub encoder: bool,
    pub gpio: bool,
    pub interrupt: bool,
    pub keypad: bool,
    pub neopixel: bool,
    pub sercom0: bool,
    pub spectrum: bool,
    pub status: bool,
    pub timer: bool,
    pub touch: bool,
}

impl DeviceCapabilities {
    /// The capabilities an options word stands for: each module's flag is
    /// the bit at the module's number.
    pub open spec fn of(value: u32) -> DeviceCapabilities {
        DeviceCapabilities {
            adc: crate::modules::bit(value, crate::modules::Modules::Adc.number() as u32),
            dac: crate::modules::bit(value, crate::modules::Modules::Dac.number() as u32),
            dap: crate::modules::bit(value, crate::modules::Modules::Dap.number() as u32),
            eeprom: crate::modules::bit(value, crate::modules::Modules::Eeprom.number() as u32),
            encoder: crate::modules::bit(value, crate::modules::Modules::Encoder.number() as u32),
            gpio: crate::modules::bit(value, crate::modules::Modules::Gpio.number() as u32),
            interrupt: crate::modules::bit(value, crate::modules::Modules::Interrupt.number() as u32),
            keypad: crate::modules::bit(value, crate::modules::Modules::Keypad.number() as u32),
            neopixel: crate::modules::bit(value, crate::modules::Modules::Neopixel.number() as u32),
            sercom0: crate::modules::bit(value, crate::modules::Modules::Sercom0.number() as u32),
            spectrum: crate::modules::bit(value, crate::modules::Modules::Spectrum.number() as u32),
            status: crate::modules::bit(value, crate::modules::Modules::Status.number() as u32),
            timer: crate::modules::bit(value, crate::modules::Modules::Timer.number() as u32),
            touch: crate::modules::bit(value, crate::modules::Modules::Touch.number() as u32),
        }
    }

    /// Decodes an options word.
    pub fn from_options(value: u32) -> (caps: Self)
        ensures
            caps == DeviceCapabilities::of(value),
    {
        DeviceCapabilities {
            adc: (value >> 0x09u32) & 1 == 1,
            dac: (value >> 0x0Au32) & 1 == 1,
            dap: (value >> 0x0Cu32) & 1 == 1,
            eeprom: (value >> 0x0Du32) & 1 == 1,
            encoder: (value >> 0x11u32) & 1 == 1,
            gpio: (value >> 0x01u32) & 1 == 1,
            interrupt: (value >> 0x0Bu32) & 1 == 1,
            keypad: (value >> 0x10u32) & 1 == 1,
            neopixel: (value >> 0x0Eu32) & 1 == 1,
            sercom0: (value >> 0x02u32) & 1 == 1,
            spectrum: (value >> 0x12u32) & 1 == 1,
            status: (value >> 0x00u32) & 1 == 1,
            timer: (value >> 0x08u32) & 1 == 1,
            touch: (value >> 0x0Fu32) & 1 == 1,
        }
    }
}

impl From<u32> for DeviceCapabilities {
    fn from(value: u32) -> (caps: Self) {
        DeviceCapabilities::from_options(value)
    }
}

impl FromSpecImpl<u32> for DeviceCapabilities {
    open spec fn obeys_from_spec() -> bool {
        true
    }

    open spec fn from_spec(value: u32) -> Self {
        DeviceCapabilities::of(value)
    }
}

/// Product number and build date of a chip's firmware.
#[derive(Copy, Clone, Debug, PartialEq, Eq, Structural)]
pub struct ProductDateCode {
    pub id: u16,
    pub year: u16,
    pub month: u8,
    pub day: u8,
}

impl ProductDateCode {
    /// What a version word stands for: the product number in the upper half,
    /// and in the lower half the year after 2000 in bits 0 to 5, the month
    /// in bits 7 to 10 and the day in bits 11 to 15.
    pub open spec fn of(vers: u32) -> ProductDateCode {
        ProductDateCode {
            id: (vers >> 16) as u16,
            year: ((vers & 0x3F) + 2000) as u16,
            month: ((vers >> 7) & 0xF) as u8,
            day: ((vers >> 11) & 0x1F) as u8,
        }
    }

    /// Decodes a version word.
    pub fn from_version(vers: u32) -> (info: Self)
        ensures
            info == ProductDateCode::of(vers),
            2000 <= info.year <= 2063,
            info.month <= 15,
            info.day <= 31,
    {
        assert(vers & 0x3F <= 63) by (bit_vector);
        assert((vers >> 7) & 0xF <= 15) by (bit_vector);
        assert((vers >> 11) & 0x1F <= 31) by (bit_vector);
        ProductDateCode {
            id: (vers >> 16) as u16,
            year: ((vers & 0x3F) + 2000) as u16,
            month: ((vers >> 7) & 0xF) as u8,
            day: ((vers >> 11) & 0x1F) as u8,
        }
    }
}

impl From<u32> for ProductDateCode {
    fn from(vers: u32) -> (info: Self) {
        ProductDateCode::from_version(vers)
    }
}

impl FromSpecImpl<u32> for ProductDateCode {
    open spec fn obeys_from_spec() -> bool {
        true
    }

    open spec fn from_spec(vers: u32) -> Self {
        ProductDateCode::of(vers)
    }
}

} // verus!
