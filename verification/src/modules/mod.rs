//! The capability modules of the chip family and their register addresses.
use vstd::prelude::*;
use vstd::std_specs::convert::FromSpecImpl;

pub mod adc;
pub mod encoder;
pub mod gpio;
pub mod keypad;
pub mod neopixel;
pub mod status;
pub mod timer;
pub mod touch;

verus! {

/// The silicon variant behind a peripheral, as its identity register reports
/// it.
#[derive(Debug, Clone, Copy, PartialEq, Eq, Structural)]
pub enum HardwareId {
    /// seesaw HW ID code for SAMD09
    SAMD09,
    /// seesaw HW ID code for ATtiny806
    ATTINY806,
    /// seesaw HW ID code for ATtiny807
    ATTINY807,
    /// seesaw HW ID code for ATtiny816
    ATTINY816,
    /// seesaw HW ID code for ATtiny817
    ATTINY817,
    /// seesaw HW ID code for ATtiny1616
    ATTINY1616,
    /// seesaw HW ID code for ATtiny1617
    ATTINY1617,
}

impl HardwareId {
    /// The byte that the identity register holds on this variant.
    pub open spec fn code(self) -> u8 {
        match self {
            HardwareId::SAMD09 => 0x55,
            HardwareId::ATTINY806 => 0x84,
            HardwareId::ATTINY807 => 0x85,
            HardwareId::ATTINY816 => 0x86,
            HardwareId::ATTINY817 => 0x87,
            HardwareId::ATTINY1616 => 0x88,
            HardwareId::ATTINY1617 => 0x89,
        }
    }

    /// The byte that the identity register holds on this variant.
    pub fn into_u8(self) -> (b: u8)
        ensures
            b == self.code(),
    {
        match self {
            HardwareId::SAMD09 => 0x55,
            HardwareId::ATTINY806 => 0x84,
            HardwareId::ATTINY807 => 0x85,
            HardwareId::ATTINY816 => 0x86,
            HardwareId::ATTINY817 => 0x87,
            HardwareId::ATTINY1616 => 0x88,
            HardwareId::ATTINY1617 => 0x89,
        }
    }
}

impl From<HardwareId> for u8 {
    fn from(value: HardwareId) -> (b: u8) {
        value.into_u8()
    }
}

impl FromSpecImpl<HardwareId> for u8 {
    open spec fn obeys_from_spec() -> bool {
        true
    }

    open spec fn from_spec(value: HardwareId) -> u8 {
        value.code()
    }
}

/// The modules of the register address space. A module's number is the first
/// byte of each of its register addresses, and its bit in the options word.
#[derive(Debug, Clone, Copy, PartialEq, Eq, Structural)]
pub enum Modules {
    Status,
    Gpio,
    Sercom0,
    Timer,
    Adc,
    /// `Dac` has a number but no capability uses it
    Dac,
    /// `Interrupt` has a number but no capability uses it
    Interrupt,
    /// `Dap` has a number but no capability uses it
    Dap,
    Eeprom,
    Neopixel,
    Touch,
    Keypad,
    Encoder,
    Spectrum,
}

impl Modules {
    /// The module's number.
    pub open spec fn number(self) -> u8 {
        match self {
            Modules::Status => 0x00,
            Modules::Gpio => 0x01,
            Modules::Sercom0 => 0x02,
            Modules::Timer => 0x08,
            Modules::Adc => 0x09,
            Modules::Dac => 0x0A,
            Modules::Interrupt => 0x0B,
            Modules::Dap => 0x0C,
            Modules::Eeprom => 0x0D,
            Modules::Neopixel => 0x0E,
            Modules::Touch => 0x0F,
            Modules::Keypad => 0x10,
            Modules::Encoder => 0x11,
            Modules::Spectrum => 0x12,
        }
    }

    /// The module's number.
    pub fn into_u8(self) -> (b: u8)
        ensures
            b == self.number(),
    {
        match self {
            Modules::Status => 0x00,
            Modules::Gpio => 0x01,
            Modules::Sercom0 => 0x02,
            Modules::Timer => 0x08,
            Modules::Adc => 0x09,
            Modules::Dac => 0x0A,
            Modules::Interrupt => 0x0B,
            Modules::Dap => 0x0C,
            Modules::Eeprom => 0x0D,
            Modules::Neopixel => 0x0E,
            Modules::Touch => 0x0F,
            Modules::Keypad => 0x10,
            Modules::Encoder => 0x11,
            Modules::Spectrum => 0x12,
        }
    }
}

/// Every register address begins with the number of the module that the
/// register belongs to.
pub proof fn lemma_registers_lie_in_their_modules()
    ensures
        status::STATUS_HW_ID[0] == Modules::Status.number(),
        status::STATUS_VERSION[0] == Modules::Status.number(),
        status::STATUS_OPTIONS[0] == Modules::Status.number(),
        status::STATUS_TEMP[0] == Modules::Status.number(),
        status::STATUS_SWRST[0] == Modules::Status.number(),
        gpio::SET_OUTPUT[0] == Modules::Gpio.number(),
        gpio::SET_INPUT[0] == Modules::Gpio.number(),
        gpio::GPIO[0] == Modules::Gpio.number(),
        gpio::SET_HIGH[0] == Modules::Gpio.number(),
        gpio::SET_LOW[0] == Modules::Gpio.number(),
        gpio::TOGGLE[0] == Modules::Gpio.number(),
        gpio::INT_ENABLE[0] == Modules::Gpio.number(),
        gpio::INT_DISABLE[0] == Modules::Gpio.number(),
        gpio::INT_FLAG[0] == Modules::Gpio.number(),
        gpio::PULL_ENABLE[0] == Modules::Gpio.number(),
        gpio::PULL_DISABLE[0] == Modules::Gpio.number(),
        timer::PWM_VAL[0] == Modules::Timer.number(),
        adc::STATUS[0] == Modules::Adc.number(),
        adc::INTENSET[0] == Modules::Adc.number(),
        adc::INTENCLR[0] == Modules::Adc.number(),
        adc::WINMODE[0] == Modules::Adc.number(),
        adc::WINTHRESH[0] == Modules::Adc.number(),
        adc::CHANNEL_0[0] == Modules::Adc.number(),
        neopixel::SET_PIN[0] == Modules::Neopixel.number(),
        neopixel::SET_SPEED[0] == Modules::Neopixel.number(),
        neopixel::SET_LEN[0] == Modules::Neopixel.number(),
        neopixel::SET_BUF[0] == Modules::Neopixel.number(),
        neopixel::SHOW[0] == Modules::Neopixel.number(),
        touch::TOUCH[0] == Modules::Touch.number(),
        keypad::STATUS[0] == Modules::Keypad.number(),
        keypad::EVENT[0] == Modules::Keypad.number(),
        keypad::INT_SET[0] == Modules::Keypad.number(),
        keypad::INT_CLR[0] == Modules::Keypad.number(),
        keypad::COUNT[0] == Modules::Keypad.number(),
        keypad::FIFO[0] == Modules::Keypad.number(),
        encoder::STATUS[0] == Modules::Encoder.number(),
        encoder::INT_SET[0] == Modules::Encoder.number(),
        encoder::INT_CLR[0] == Modules::Encoder.number(),
        encoder::POSITION[0] == Modules::Encoder.number(),
        encoder::DELTA[0] == Modules::Encoder.number(),
{
}

/// Whether bit `n` of `word` is set.
pub open spec fn bit(word: u32, n: u32) -> bool {
    (word >> n) & 1 == 1
}

} // verus!
