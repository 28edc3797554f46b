//! The traits and types that a program driving a peripheral needs in scope.
pub use crate::devices::{SeesawDevice, SeesawDeviceInit};
pub use crate::driver::{DriverExt, SeesawDriver};
pub use crate::modules::adc::AdcModule;
pub use crate::modules::encoder::EncoderModule;
pub use crate::modules::gpio::{GpioModule, InterruptMode, PinMode};
pub use crate::modules::keypad::{KeyEvent, KeyEventIter, KeyEventType, KeypadModule};
pub use crate::modules::neopixel::{NeopixelModule, NeopixelSpeed, PixelColor};
pub use crate::modules::status::{DeviceCapabilities, ProductDateCode, StatusModule};
pub use crate::modules::timer::TimerModule;
pub use crate::modules::touch::TouchModule;
pub use crate::modules::HardwareId;
