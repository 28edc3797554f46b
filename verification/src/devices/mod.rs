//! Peripherals: a bus address bound to a transport, with the capabilities
//! the concrete chip has.
use vstd::prelude::*;

pub mod arcade_button_1x4;
pub mod generic_device;
pub mod neokey_1x4;
pub mod neorotary4;
pub mod neoslider;
pub mod neotrellis;
pub mod rotary_encoder;
pub mod soil_sensor;

pub use arcade_button_1x4::ArcadeButton1x4;
pub use generic_device::GenericDevice;
pub use neokey_1x4::{NeoKey1x4, NeoKey1x4Color};
pub use neorotary4::{NeoRotary4, NeoRotary4Color};
pub use neoslider::{NeoSlider, NeoSliderColor};
pub use neotrellis::{NeoTrellis, NeoTrellisColor};
pub use rotary_encoder::{RotaryEncoder, RotaryEncoderColor};
pub use soil_sensor::SoilSensor;
use crate::driver::{BusEvent, Driver, DriverExt};
use crate::error::SeesawError;
use crate::modules::HardwareId;

verus! {

/// A peripheral at one bus address, reached through one transport.
///
/// The address never changes; the transport is the only part of a device
/// that an operation touches, and [`driver`](SeesawDevice::driver) lends it
/// out for the length of one transaction.
pub trait SeesawDevice: Sized {
    /// The transport this device talks through.
    type Driver: DriverExt;

    /// The address the chip answers at unless it was strapped otherwise.
    const DEFAULT_ADDR: u8;

    /// The silicon variant this peripheral is built on.
    const HARDWARE_ID: HardwareId;

    /// The vendor's product number.
    const PRODUCT_ID: u16;

    /// The device's bus address.
    spec fn address(&self) -> u8;

    /// The transport as it stands.
    spec fn bus(&self) -> Self::Driver;

    fn addr(&self) -> (a: u8)
        ensures
            a == self.address(),
    ;

    fn driver(&mut self) -> (d: &mut Self::Driver)
        ensures
            *d == old(self).bus(),
            final(self).bus() == *final(d),
            final(self).address() == old(self).address(),
    ;

    fn new(addr: u8, driver: Self::Driver) -> (dev: Self)
        ensures
            dev.address() == addr,
            dev.bus() == driver,
    ;

    fn new_with_default_addr(driver: Self::Driver) -> (dev: Self)
        ensures
            dev.address() == Self::DEFAULT_ADDR,
            dev.bus() == driver,
    ;
}

/// Everything that was done on the transport of `dev` so far.
pub open spec fn log<T: SeesawDevice>(dev: T) -> Seq<BusEvent<<T::Driver as Driver>::Error>> {
    dev.bus().transcript()
}

/// `after` is `before` followed by a bring-up that ended with the error `e`.
///
/// A bring-up resets the chip, reads its identity and, if that is the
/// `expected` one, carries out the steps of `plan`. It ends with
/// `InvalidHardwareId` exactly where the chip answered with another identity,
/// and with a transport error where the reset, the identity read or a step of
/// the plan was refused; nothing is sent after the refusal.
pub open spec fn bring_up_failed<E>(
    before: Seq<BusEvent<E>>,
    after: Seq<BusEvent<E>>,
    addr: u8,
    expected: u8,
    plan: Seq<crate::driver::Step>,
    e: SeesawError<E>,
) -> bool {
    match e {
        SeesawError::InvalidHardwareId(id) => {
            &&& id != expected
            &&& after == before + crate::modules::status::verified_reset_events(addr, id)
        },
        SeesawError::I2c(fault) => {
            ||| crate::modules::status::reset_refused(before, after, addr, fault)
            ||| crate::driver::read_failed(
                before + crate::modules::status::reset_events(addr),
                after,
                addr,
                crate::modules::status::STATUS_HW_ID,
                crate::driver::DELAY_TIME as nat,
                1,
                fault,
            )
            ||| crate::driver::ran(
                before + crate::modules::status::verified_reset_events(addr, expected),
                after,
                addr,
                plan,
                Err(fault),
            )
        },
    }
}

/// The bring-up sequence of a peripheral: what has to be sent once before
/// its capabilities can be used.
pub trait SeesawDeviceInit<D: DriverExt>: SeesawDevice<Driver = D> {
    fn init(self) -> (r: Result<Self, SeesawError<D::Error>>)
        ensures
            r matches Ok(dev) ==> dev.address() == self.address(),
    ;
}

} // verus!
