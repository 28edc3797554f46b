//! A driver layer for the seesaw family of I2C co-processors.
//!
//! Every capability of a chip (status, digital I/O, analog input, PWM,
//! rotary encoders, keypad scanning, addressable LEDs, touch) lives behind
//! two-byte register addresses on one 7-bit bus address. A peripheral type
//! names the capabilities its chip has; what a capability sends over the bus,
//! in which order and with which delays, is stated in its contract over the
//! transcript of the transport.
pub use rgb;

pub mod bus;
pub mod codec;
pub mod devices;
pub mod driver;
pub mod error;
pub mod modules;
pub mod prelude;

pub use bus::{Bus, BusMutex};
pub use devices::{SeesawDevice, SeesawDeviceInit};
pub use driver::{DelaySource, Driver, DriverExt, I2cMaster, Reg, SeesawDriver};
pub use error::SeesawError;
pub use modules::{HardwareId, Modules};
