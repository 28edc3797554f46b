use adafruit_seesaw::devices::{
    ArcadeButton1x4, GenericDevice, NeoKey1x4, NeoRotary4, NeoSlider, NeoTrellis, RotaryEncoder,
    SoilSensor,
};
use adafruit_seesaw::driver::{DelaySource, DriverExt, I2cMaster, Pauses, SeesawDriver, Transfers};
use adafruit_seesaw::modules::adc::AdcModule;
use adafruit_seesaw::modules::encoder::EncoderModule;
use adafruit_seesaw::modules::gpio::{GpioModule, PinMode};
use adafruit_seesaw::modules::keypad::{KeyEvent, KeyEventType, KeypadModule};
use adafruit_seesaw::modules::neopixel::{NeopixelModule, NeopixelSpeed};
use adafruit_seesaw::modules::status::{DeviceCapabilities, ProductDateCode, StatusModule};
use adafruit_seesaw::modules::timer::TimerModule;
use adafruit_seesaw::modules::touch::TouchModule;
use adafruit_seesaw::modules::HardwareId;
use adafruit_seesaw::{SeesawDevice, SeesawDeviceInit, SeesawError};
use std::cell::RefCell;
use std::collections::VecDeque;
use std::rc::Rc;

#[derive(Debug, Clone, PartialEq, Eq)]
enum Ev {
    Write(u8, Vec<u8>),
    Read(u8, usize),
    Delay(u32),
}

#[derive(Default)]
struct Tape {
    events: Vec<Ev>,
    replies: VecDeque<Vec<u8>>,
    refuse_write: Option<usize>,
    refuse_read: Option<usize>,
    writes: usize,
    reads: usize,
}

#[derive(Clone)]
struct Wire(Rc<RefCell<Tape>>);

type Port = SeesawDriver<Wire, Wire>;

impl Wire {
    fn new() -> Self {
        Wire(Rc::new(RefCell::new(Tape::default())))
    }

    fn reply(&self, bytes: &[u8]) {
        self.0.borrow_mut().replies.push_back(bytes.to_vec());
    }

    fn refuse_write(&self, nth: usize) {
        self.0.borrow_mut().refuse_write = Some(nth);
    }

    fn refuse_read(&self, nth: usize) {
        self.0.borrow_mut().refuse_read = Some(nth);
    }

    fn events(&self) -> Vec<Ev> {
        self.0.borrow().events.clone()
    }

    fn clear(&self) {
        self.0.borrow_mut().events.clear();
    }

    fn driver(&self) -> Port {
        SeesawDriver::new(self.clone(), self.clone())
    }
}

impl I2cMaster for Wire {
    type Error = u16;

    fn transfers(&self) -> Transfers<u16> {
        unreachable!()
    }

    fn send(&mut self, address: u8, bytes: &[u8]) -> Result<(), u16> {
        let mut tape = self.0.borrow_mut();
        tape.events.push(Ev::Write(address, bytes.to_vec()));
        let n = tape.writes;
        tape.writes += 1;
        if tape.refuse_write == Some(n) {
            Err(0x0100 + n as u16)
        } else {
            Ok(())
        }
    }

    fn receive(&mut self, address: u8, buffer: &mut [u8]) -> Result<(), u16> {
        let mut tape = self.0.borrow_mut();
        tape.events.push(Ev::Read(address, buffer.len()));
        let n = tape.reads;
        tape.reads += 1;
        if tape.refuse_read == Some(n) {
            return Err(0x0200 + n as u16);
        }
        let reply = tape.replies.pop_front().unwrap_or_default();
        for (slot, byte) in buffer.iter_mut().zip(reply.iter()) {
            *slot = *byte;
        }
        Ok(())
    }
}

impl DelaySource for Wire {
    fn pauses(&self) -> Pauses {
        unreachable!()
    }

    fn pause_us(&mut self, us: u32) {
        self.0.borrow_mut().events.push(Ev::Delay(us));
    }
}

fn write(addr: u8, bytes: &[u8]) -> Vec<Ev> {
    vec![Ev::Write(addr, bytes.to_vec()), Ev::Delay(125)]
}

fn read(addr: u8, reg: [u8; 2], len: usize) -> Vec<Ev> {
    vec![Ev::Write(addr, reg.to_vec()), Ev::Delay(125), Ev::Read(addr, len)]
}

fn reset(addr: u8) -> Vec<Ev> {
    vec![Ev::Write(addr, vec![0x00, 0x7F, 0xFF]), Ev::Delay(125), Ev::Delay(125_000)]
}

fn pull(addr: u8, mask: [u8; 4], level: u8) -> Vec<Ev> {
    let mut out = Vec::new();
    for reg in [0x03u8, 0x0B, level] {
        let mut frame = vec![0x01, reg];
        frame.extend_from_slice(&mask);
        out.extend(write(addr, &frame));
    }
    out
}

fn join(parts: &[Vec<Ev>]) -> Vec<Ev> {
    parts.iter().flatten().cloned().collect()
}

fn is_i2c<T: std::fmt::Debug>(r: Result<T, SeesawError<u16>>, code: u16) -> bool {
    matches!(r, Err(SeesawError::I2c(e)) if e == code)
}

#[test]
fn devices_know_their_defaults() {
    assert_eq!(GenericDevice::<Port>::DEFAULT_ADDR, 0x49);
    assert_eq!(GenericDevice::<Port>::HARDWARE_ID, HardwareId::SAMD09);
    assert_eq!(GenericDevice::<Port>::PRODUCT_ID, 0);
    assert_eq!(ArcadeButton1x4::<Port>::DEFAULT_ADDR, 0x3A);
    assert_eq!(ArcadeButton1x4::<Port>::HARDWARE_ID, HardwareId::ATTINY817);
    assert_eq!(ArcadeButton1x4::<Port>::PRODUCT_ID, 5296);
    assert_eq!(NeoKey1x4::<Port>::DEFAULT_ADDR, 0x30);
    assert_eq!(NeoKey1x4::<Port>::HARDWARE_ID, HardwareId::SAMD09);
    assert_eq!(NeoKey1x4::<Port>::PRODUCT_ID, 4980);
    assert_eq!(NeoSlider::<Port>::DEFAULT_ADDR, 0x30);
    assert_eq!(NeoSlider::<Port>::HARDWARE_ID, HardwareId::ATTINY817);
    assert_eq!(NeoSlider::<Port>::PRODUCT_ID, 5295);
    assert_eq!(NeoRotary4::<Port>::DEFAULT_ADDR, 0x49);
    assert_eq!(NeoRotary4::<Port>::HARDWARE_ID, HardwareId::ATTINY817);
    assert_eq!(NeoRotary4::<Port>::PRODUCT_ID, 5752);
    assert_eq!(NeoTrellis::<Port>::DEFAULT_ADDR, 0x2E);
    assert_eq!(NeoTrellis::<Port>::HARDWARE_ID, HardwareId::SAMD09);
    assert_eq!(NeoTrellis::<Port>::PRODUCT_ID, 3954);
    assert_eq!(RotaryEncoder::<Port>::DEFAULT_ADDR, 0x36);
    assert_eq!(RotaryEncoder::<Port>::HARDWARE_ID, HardwareId::SAMD09);
    assert_eq!(RotaryEncoder::<Port>::PRODUCT_ID, 4991);
    assert_eq!(SoilSensor::<Port>::DEFAULT_ADDR, 0x36);
    assert_eq!(SoilSensor::<Port>::HARDWARE_ID, HardwareId::SAMD09);
    assert_eq!(SoilSensor::<Port>::PRODUCT_ID, 4026);
}

#[test]
fn a_device_keeps_the_address_it_was_given() {
    let wire = Wire::new();
    let dev = GenericDevice::new(0x4A, wire.driver());
    assert_eq!(dev.addr(), 0x4A);
    let dev = GenericDevice::new_with_default_addr(wire.driver());
    assert_eq!(dev.addr(), 0x49);
    let dev = NeoTrellis::new_with_default_addr(wire.driver());
    assert_eq!(dev.addr(), 0x2E);
    assert!(wire.events().is_empty());
}

#[test]
fn hardware_id_reads_one_byte_of_the_identity_register() {
    let wire = Wire::new();
    wire.reply(&[0x55]);
    let mut dev = GenericDevice::new(0x49, wire.driver());
    assert!(matches!(dev.hardware_id(), Ok(0x55)));
    assert_eq!(wire.events(), read(0x49, [0x00, 0x01], 1));
}

#[test]
fn capabilities_with_only_the_encoder_bit_set() {
    let wire = Wire::new();
    wire.reply(&[0x00, 0x02, 0x00, 0x00]);
    let mut dev = GenericDevice::new(0x49, wire.driver());
    let caps = dev.capabilities().ok().unwrap();
    assert_eq!(
        caps,
        DeviceCapabilities {
            adc: false,
            dac: false,
            dap: false,
            eeprom: false,
            encoder: true,
            gpio: false,
            interrupt: false,
            keypad: false,
            neopixel: false,
            sercom0: false,
            spectrum: false,
            status: false,
            timer: false,
            touch: false,
        }
    );
    assert_eq!(wire.events(), read(0x49, [0x00, 0x03], 4));
}

#[test]
fn product_info_decodes_the_version_register() {
    let wire = Wire::new();
    let word = (5296u32 << 16) | (3 << 11) | (12 << 7) | 22;
    wire.reply(&word.to_be_bytes());
    let mut dev = ArcadeButton1x4::new(0x3A, wire.driver());
    let info = dev.product_info().ok().unwrap();
    assert_eq!(info, ProductDateCode { id: 5296, year: 2022, month: 12, day: 3 });
    assert_eq!(wire.events(), read(0x3A, [0x00, 0x02], 4));
}

#[test]
fn raw_temperature_is_the_fixed_point_register() {
    let wire = Wire::new();
    wire.reply(&[0x00, 0x19, 0x80, 0x00]);
    let mut dev = GenericDevice::new(0x49, wire.driver());
    assert!(matches!(dev.temp_raw(), Ok(0x0019_8000)));
    assert_eq!(wire.events(), read(0x49, [0x00, 0x04], 4));
}

#[test]
fn reset_writes_ff_and_waits_for_the_reboot() {
    let wire = Wire::new();
    let mut dev = GenericDevice::new(0x49, wire.driver());
    assert!(dev.reset().is_ok());
    assert_eq!(wire.events(), reset(0x49));
}

#[test]
fn refused_reset_does_not_wait() {
    let wire = Wire::new();
    wire.refuse_write(0);
    let mut dev = GenericDevice::new(0x49, wire.driver());
    assert!(is_i2c(dev.reset(), 0x0100));
    assert_eq!(wire.events(), vec![Ev::Write(0x49, vec![0x00, 0x7F, 0xFF])]);
}

#[test]
fn reset_and_verify_accepts_the_declared_identity() {
    let wire = Wire::new();
    wire.reply(&[0x87]);
    let mut dev = ArcadeButton1x4::new(0x3A, wire.driver());
    assert!(dev.reset_and_verify_seesaw().is_ok());
    assert_eq!(wire.events(), join(&[reset(0x3A), read(0x3A, [0x00, 0x01], 1)]));
}

#[test]
fn reset_and_verify_reports_the_byte_it_found() {
    for actual in [0x00u8, 0x55, 0x86, 0x88, 0xFF] {
        let wire = Wire::new();
        wire.reply(&[actual]);
        let mut dev = ArcadeButton1x4::new(0x3A, wire.driver());
        let r = dev.reset_and_verify_seesaw();
        assert!(matches!(r, Err(SeesawError::InvalidHardwareId(id)) if id == actual));
        assert_eq!(wire.events(), join(&[reset(0x3A), read(0x3A, [0x00, 0x01], 1)]));
    }
}

#[test]
fn reset_and_verify_succeeds_only_on_the_declared_identity() {
    for actual in 0u8..=255 {
        let wire = Wire::new();
        wire.reply(&[actual]);
        let mut dev = NeoKey1x4::new(0x30, wire.driver());
        let r = dev.reset_and_verify_seesaw();
        assert_eq!(r.is_ok(), actual == 0x55);
        if actual != 0x55 {
            assert!(matches!(r, Err(SeesawError::InvalidHardwareId(id)) if id == actual));
        }
    }
}

#[test]
fn reset_and_verify_stops_at_a_refused_reset() {
    let wire = Wire::new();
    wire.refuse_write(0);
    let mut dev = NeoKey1x4::new(0x30, wire.driver());
    assert!(is_i2c(dev.reset_and_verify_seesaw(), 0x0100));
    assert_eq!(wire.events(), vec![Ev::Write(0x30, vec![0x00, 0x7F, 0xFF])]);
}

#[test]
fn reset_and_verify_forwards_a_failed_identity_read() {
    let wire = Wire::new();
    wire.refuse_read(0);
    let mut dev = NeoKey1x4::new(0x30, wire.driver());
    assert!(is_i2c(dev.reset_and_verify_seesaw(), 0x0200));
    assert_eq!(wire.events(), join(&[reset(0x30), read(0x30, [0x00, 0x01], 1)]));
}

#[test]
fn digital_read_bulk_reads_the_port_register() {
    let wire = Wire::new();
    wire.reply(&[0x12, 0x34, 0x56, 0x78]);
    let mut dev = NeoKey1x4::new(0x30, wire.driver());
    assert!(matches!(dev.digital_read_bulk(), Ok(0x1234_5678)));
    assert_eq!(wire.events(), read(0x30, [0x01, 0x04], 4));
}

#[test]
fn digital_read_negates_the_bit_of_the_pin() {
    for word in [0u32, u32::MAX, 0x8000_0001, 0x1234_5678, 0x00F0_0F00] {
        for pin in 0u8..32 {
            let wire = Wire::new();
            wire.reply(&word.to_be_bytes());
            wire.reply(&word.to_be_bytes());
            let mut dev = NeoKey1x4::new(0x30, wire.driver());
            let level = dev.digital_read(pin).ok().unwrap();
            let bulk = dev.digital_read_bulk().ok().unwrap();
            assert_eq!(bulk, word);
            assert_eq!(level, (bulk >> pin) & 1 == 0);
        }
    }
}

#[test]
fn pull_up_is_set_input_then_enable_pull_then_set_high() {
    let wire = Wire::new();
    let mut dev = NeoKey1x4::new(0x30, wire.driver());
    assert!(dev.set_pin_mode_bulk(0x0000_00F0, PinMode::InputPullup).is_ok());
    assert_eq!(
        wire.events(),
        join(&[
            write(0x30, &[0x01, 0x03, 0, 0, 0, 0xF0]),
            write(0x30, &[0x01, 0x0B, 0, 0, 0, 0xF0]),
            write(0x30, &[0x01, 0x05, 0, 0, 0, 0xF0]),
        ])
    );
}

#[test]
fn pull_down_is_set_input_then_enable_pull_then_set_low() {
    let wire = Wire::new();
    let mut dev = NeoKey1x4::new(0x30, wire.driver());
    assert!(dev.set_pin_mode_bulk(0x8000_0001, PinMode::InputPulldown).is_ok());
    assert_eq!(
        wire.events(),
        join(&[
            write(0x30, &[0x01, 0x03, 0x80, 0, 0, 0x01]),
            write(0x30, &[0x01, 0x0B, 0x80, 0, 0, 0x01]),
            write(0x30, &[0x01, 0x06, 0x80, 0, 0, 0x01]),
        ])
    );
}

#[test]
fn plain_input_and_output_take_one_write() {
    let wire = Wire::new();
    let mut dev = NeoKey1x4::new(0x30, wire.driver());
    assert!(dev.set_pin_mode_bulk(0x0000_0100, PinMode::Input).is_ok());
    assert_eq!(wire.events(), write(0x30, &[0x01, 0x03, 0, 0, 0x01, 0]));
    wire.clear();
    assert!(dev.set_pin_mode_bulk(0x0000_0100, PinMode::Output).is_ok());
    assert_eq!(wire.events(), write(0x30, &[0x01, 0x04, 0, 0, 0x01, 0]));
}

#[test]
fn set_pin_mode_addresses_the_bit_of_the_pin() {
    for pin in [0u8, 1, 7, 18, 31] {
        let wire = Wire::new();
        let mut dev = NeoKey1x4::new(0x30, wire.driver());
        assert!(dev.set_pin_mode(pin, PinMode::InputPullup).is_ok());
        assert_eq!(wire.events(), pull(0x30, (1u32 << pin).to_be_bytes(), 0x05));
    }
}

#[test]
fn pull_up_stops_at_the_write_that_is_refused() {
    for nth in 0..3usize {
        let wire = Wire::new();
        wire.refuse_write(nth);
        let mut dev = NeoKey1x4::new(0x30, wire.driver());
        let r = dev.set_pin_mode_bulk(0xF0, PinMode::InputPullup);
        assert!(is_i2c(r, 0x0100 + nth as u16));
        let full = pull(0x30, [0, 0, 0, 0xF0], 0x05);
        assert_eq!(wire.events(), full[..2 * nth + 1].to_vec());
    }
}

#[test]
fn analog_read_on_attiny_uses_the_pin_as_channel() {
    let wire = Wire::new();
    wire.reply(&[0x03, 0xFF]);
    let mut dev = NeoSlider::new(0x30, wire.driver());
    assert!(matches!(dev.analog_read(18), Ok(0x03FF)));
    assert_eq!(wire.events(), read(0x30, [0x09, 0x07 + 18], 2));
}

#[test]
fn slider_value_is_the_conversion_of_pin_18() {
    let wire = Wire::new();
    wire.reply(&[0x01, 0x02]);
    let mut dev = NeoSlider::new(0x30, wire.driver());
    assert!(matches!(dev.slider_value(), Ok(0x0102)));
    assert_eq!(wire.events(), read(0x30, [0x09, 0x19], 2));
}

#[test]
fn analog_write_sends_channel_and_value() {
    let wire = Wire::new();
    let mut dev = ArcadeButton1x4::new(0x3A, wire.driver());
    assert!(dev.analog_write(12, 0x80).is_ok());
    assert_eq!(wire.events(), write(0x3A, &[0x08, 0x01, 12, 0x80]));
}

#[test]
fn touch_waits_three_milliseconds_for_the_conversion() {
    let wire = Wire::new();
    wire.reply(&[0x02, 0x58]);
    let mut dev = SoilSensor::new(0x36, wire.driver());
    assert!(matches!(dev.read_touch_capacitance(), Ok(600)));
    assert_eq!(
        wire.events(),
        vec![Ev::Write(0x36, vec![0x0F, 0x10]), Ev::Delay(3000), Ev::Read(0x36, 2)]
    );
}

#[test]
fn encoder_position_is_a_signed_register_per_encoder() {
    let wire = Wire::new();
    wire.reply(&[0xFF, 0xFF, 0xFF, 0xF6]);
    wire.reply(&[0x00, 0x00, 0x01, 0x00]);
    let mut dev = NeoRotary4::new(0x49, wire.driver());
    assert!(matches!(dev.position(2), Ok(-10)));
    assert!(matches!(dev.position(0), Ok(256)));
    assert_eq!(
        wire.events(),
        join(&[read(0x49, [0x11, 0x32], 4), read(0x49, [0x11, 0x30], 4)])
    );
}

#[test]
fn encoder_delta_reads_the_delta_register() {
    let wire = Wire::new();
    wire.reply(&[0xFF, 0xFF, 0xFF, 0xFF]);
    let mut dev = NeoRotary4::new(0x49, wire.driver());
    assert!(matches!(dev.delta(3), Ok(-1)));
    assert_eq!(wire.events(), read(0x49, [0x11, 0x43], 4));
}

#[test]
fn encoder_set_position_writes_the_position_register() {
    let wire = Wire::new();
    let mut dev = NeoRotary4::new(0x49, wire.driver());
    assert!(dev.set_position(1, -2).is_ok());
    assert_eq!(wire.events(), write(0x49, &[0x11, 0x31, 0xFF, 0xFF, 0xFF, 0xFE]));
}

#[test]
fn encoder_interrupts_are_single_byte_writes() {
    let wire = Wire::new();
    let mut dev = NeoRotary4::new(0x49, wire.driver());
    assert!(EncoderModule::enable_interrupt(&mut dev, 1).is_ok());
    assert!(EncoderModule::disable_interrupt(&mut dev, 3).is_ok());
    assert_eq!(
        wire.events(),
        join(&[write(0x49, &[0x11, 0x11, 1]), write(0x49, &[0x11, 0x23, 1])])
    );
}

#[test]
fn encoder_button_is_enabled_as_pull_up_with_a_pause() {
    let wire = Wire::new();
    let mut dev = NeoRotary4::new(0x49, wire.driver());
    assert!(dev.enable_button(2).is_ok());
    assert_eq!(
        wire.events(),
        join(&[pull(0x49, (1u32 << 17).to_be_bytes(), 0x05), vec![Ev::Delay(125)]])
    );
}

#[test]
fn encoder_button_reads_its_pin() {
    let wire = Wire::new();
    wire.reply(&(!(1u32 << 24)).to_be_bytes());
    wire.reply(&(1u32 << 24).to_be_bytes());
    let mut dev = RotaryEncoder::new(0x36, wire.driver());
    assert!(matches!(dev.button(0), Ok(true)));
    assert!(matches!(dev.button(0), Ok(false)));
    assert_eq!(
        wire.events(),
        join(&[read(0x36, [0x01, 0x04], 4), read(0x36, [0x01, 0x04], 4)])
    );
}

#[test]
fn keypad_knows_its_grid() {
    let wire = Wire::new();
    let dev = NeoTrellis::new(0x2E, wire.driver());
    assert_eq!(dev.num_cols(), 4);
    assert_eq!(dev.num_rows(), 4);
}

#[test]
fn keypad_interrupts_are_single_byte_writes() {
    let wire = Wire::new();
    let mut dev = NeoTrellis::new(0x2E, wire.driver());
    assert!(KeypadModule::enable_interrupt(&mut dev).is_ok());
    assert!(KeypadModule::disable_interrupt(&mut dev).is_ok());
    assert_eq!(
        wire.events(),
        join(&[write(0x2E, &[0x10, 0x02, 1]), write(0x2E, &[0x10, 0x03, 1])])
    );
}

#[test]
fn key_triggers_pack_key_and_edges() {
    let wire = Wire::new();
    let mut dev = NeoTrellis::new(0x2E, wire.driver());
    let r = dev.set_key_event_triggers(
        3,
        2,
        &[KeyEventType::Pressed, KeyEventType::Released],
        true,
    );
    assert!(r.is_ok());
    assert_eq!(wire.events(), write(0x2E, &[0x10, 0x01, (2 << 3) + 3, 0b11001]));
    wire.clear();
    assert!(dev.set_key_event_triggers(0, 0, &[], false).is_ok());
    assert_eq!(wire.events(), write(0x2E, &[0x10, 0x01, 0, 0]));
}

#[test]
fn polling_an_empty_queue_reads_only_the_count() {
    let wire = Wire::new();
    wire.reply(&[0]);
    let mut dev = NeoTrellis::new(0x2E, wire.driver());
    let mut events = dev.read_key_events().ok().unwrap();
    assert_eq!(events.next(), None);
    assert_eq!(wire.events(), read(0x2E, [0x10, 0x04], 1));
}

#[test]
fn polling_reads_the_queue_in_one_burst() {
    let wire = Wire::new();
    wire.reply(&[2]);
    wire.reply(&[0b0000_1111, 0b0010_0110, 0xAA, 0xBB]);
    let mut dev = NeoTrellis::new(0x2E, wire.driver());
    let mut events = dev.read_key_events().ok().unwrap();
    assert_eq!(events.next(), Some(KeyEvent { event: KeyEventType::Pressed, x: 3, y: 0 }));
    assert_eq!(events.next(), Some(KeyEvent { event: KeyEventType::Released, x: 1, y: 1 }));
    assert_eq!(events.next(), None);
    assert_eq!(
        wire.events(),
        join(&[read(0x2E, [0x10, 0x04], 1), read(0x2E, [0x10, 0x10], 16)])
    );
}

#[test]
fn polling_never_reports_more_than_the_queue_holds() {
    for count in [16u8, 17, 200, 255] {
        let wire = Wire::new();
        wire.reply(&[count]);
        let fifo: Vec<u8> = (100u8..116).collect();
        wire.reply(&fifo);
        let mut dev = NeoTrellis::new(0x2E, wire.driver());
        let mut events = dev.read_key_events().ok().unwrap();
        for b in &fifo {
            assert_eq!(events.next(), Some(KeyEvent::from(*b)));
        }
        assert_eq!(events.next(), None);
    }
}

#[test]
fn polling_forwards_a_failure_of_either_read() {
    let wire = Wire::new();
    wire.refuse_read(0);
    let mut dev = NeoTrellis::new(0x2E, wire.driver());
    assert!(is_i2c(dev.read_key_events(), 0x0200));
    assert_eq!(wire.events(), read(0x2E, [0x10, 0x04], 1));
    let wire = Wire::new();
    wire.reply(&[1]);
    wire.refuse_read(1);
    let mut dev = NeoTrellis::new(0x2E, wire.driver());
    assert!(is_i2c(dev.read_key_events(), 0x0201));
    assert_eq!(
        wire.events(),
        join(&[read(0x2E, [0x10, 0x04], 1), read(0x2E, [0x10, 0x10], 16)])
    );
}

#[test]
fn enable_neopixel_sets_pin_then_buffer_length() {
    let wire = Wire::new();
    let mut dev = NeoTrellis::new(0x2E, wire.driver());
    assert!(dev.enable_neopixel().is_ok());
    assert_eq!(
        wire.events(),
        vec![
            Ev::Write(0x2E, vec![0x0E, 0x01, 3]),
            Ev::Delay(125),
            Ev::Delay(10_000),
            Ev::Write(0x2E, vec![0x0E, 0x03, 0x00, 48]),
            Ev::Delay(125),
            Ev::Delay(10_000),
        ]
    );
}

#[test]
fn set_neopixel_speed_writes_the_speed_byte() {
    let wire = Wire::new();
    let mut dev = NeoKey1x4::new(0x30, wire.driver());
    assert!(dev.set_neopixel_speed(NeopixelSpeed::Khz400).is_ok());
    assert!(dev.set_neopixel_speed(NeopixelSpeed::Khz800).is_ok());
    assert_eq!(
        wire.events(),
        vec![
            Ev::Write(0x30, vec![0x0E, 0x02, 0]),
            Ev::Delay(125),
            Ev::Delay(10_000),
            Ev::Write(0x30, vec![0x0E, 0x02, 1]),
            Ev::Delay(125),
            Ev::Delay(10_000),
        ]
    );
}

#[test]
fn nth_color_goes_to_its_byte_offset_in_channel_order() {
    let wire = Wire::new();
    let mut dev = NeoTrellis::new(0x2E, wire.driver());
    let color = rgb::Grb { g: 0x11u8, r: 0x22, b: 0x33 };
    assert!(dev.set_nth_neopixel_color(5, color).is_ok());
    assert_eq!(wire.events(), write(0x2E, &[0x0E, 0x04, 0x00, 15, 0x11, 0x22, 0x33]));
    wire.clear();
    assert!(dev.set_neopixel_color(color).is_ok());
    assert_eq!(wire.events(), write(0x2E, &[0x0E, 0x04, 0x00, 0, 0x11, 0x22, 0x33]));
}

#[test]
fn trellis_leds_are_strung_row_by_row() {
    let wire = Wire::new();
    let mut dev = NeoTrellis::new(0x2E, wire.driver());
    let color = rgb::Grb { g: 1u8, r: 2, b: 3 };
    assert!(dev.set_xy_neopixel_color(2, 3, color).is_ok());
    assert_eq!(wire.events(), write(0x2E, &[0x0E, 0x04, 0x00, 42, 1, 2, 3]));
}

#[test]
fn trellis_led_index_is_row_times_four_plus_column() {
    let wire = Wire::new();
    let mut dev = NeoTrellis::new(0x2E, wire.driver());
    let color = rgb::Grb { g: 9u8, r: 8, b: 7 };
    assert!(dev.set_xy_neopixel_color(0, 0, color).is_ok());
    assert!(dev.set_xy_neopixel_color(3, 3, color).is_ok());
    assert!(dev.set_xy_neopixel_color(7, 2, color).is_ok());
    let offsets: Vec<u8> = wire
        .events()
        .into_iter()
        .filter_map(|e| match e {
            Ev::Write(_, frame) => Some(frame[3]),
            _ => None,
        })
        .collect();
    assert_eq!(offsets, vec![0, 45, 45]);
}

#[test]
fn show_is_a_write_without_payload_and_a_second_settle_delay() {
    let wire = Wire::new();
    let mut dev = NeoKey1x4::new(0x30, wire.driver());
    assert!(dev.sync_neopixel().is_ok());
    assert_eq!(
        wire.events(),
        vec![Ev::Write(0x30, vec![0x0E, 0x05]), Ev::Delay(125), Ev::Delay(125)]
    );
}

fn sixteen_colors() -> Vec<rgb::Grb<u8>> {
    (0u8..16).map(|i| rgb::Grb { g: 3 * i, r: 3 * i + 1, b: 3 * i + 2 }).collect()
}

#[test]
fn sixteen_colors_travel_in_two_chunks_of_whole_colors() {
    let wire = Wire::new();
    let mut dev = NeoTrellis::new(0x2E, wire.driver());
    assert!(dev.set_neopixel_colors(&sixteen_colors()).is_ok());
    let bytes: Vec<u8> = (0u8..48).collect();
    let mut first = vec![0x0E, 0x04, 0x00, 0];
    first.extend_from_slice(&bytes[..27]);
    let mut second = vec![0x0E, 0x04, 0x00, 27];
    second.extend_from_slice(&bytes[27..]);
    assert_eq!(wire.events(), join(&[write(0x2E, &first), write(0x2E, &second)]));
}

#[test]
fn chunks_cover_the_string_at_increasing_offsets() {
    let wire = Wire::new();
    let mut dev = NeoTrellis::new(0x2E, wire.driver());
    assert!(dev.set_neopixel_colors(&sixteen_colors()).is_ok());
    let mut total = 0usize;
    let mut last_offset: Option<u16> = None;
    let mut joined = Vec::new();
    for ev in wire.events() {
        if let Ev::Write(_, frame) = ev {
            assert!(frame.len() <= 34);
            let offset = u16::from_be_bytes([frame[2], frame[3]]);
            let colors = &frame[4..];
            assert_eq!(colors.len() % 3, 0);
            assert!(colors.len() / 3 <= 9);
            assert_eq!(offset as usize, total);
            if let Some(prev) = last_offset {
                assert!(prev < offset);
            }
            last_offset = Some(offset);
            total += colors.len();
            joined.extend_from_slice(colors);
        }
    }
    assert_eq!(total, 16 * 3);
    assert_eq!(joined, (0u8..48).collect::<Vec<u8>>());
}

#[test]
fn four_colors_fit_one_chunk() {
    let wire = Wire::new();
    let mut dev = NeoKey1x4::new(0x30, wire.driver());
    let colors = [
        rgb::Grb { g: 1u8, r: 2, b: 3 },
        rgb::Grb { g: 4, r: 5, b: 6 },
        rgb::Grb { g: 7, r: 8, b: 9 },
        rgb::Grb { g: 10, r: 11, b: 12 },
    ];
    assert!(dev.set_neopixel_colors(&colors).is_ok());
    assert_eq!(
        wire.events(),
        write(0x30, &[0x0E, 0x04, 0, 0, 1, 2, 3, 4, 5, 6, 7, 8, 9, 10, 11, 12])
    );
}

#[test]
fn nothing_is_sent_after_a_refused_chunk() {
    let wire = Wire::new();
    wire.refuse_write(0);
    let mut dev = NeoTrellis::new(0x2E, wire.driver());
    assert!(is_i2c(dev.set_neopixel_colors(&sixteen_colors()), 0x0100));
    assert_eq!(wire.events().len(), 1);
    let wire = Wire::new();
    wire.refuse_write(1);
    let mut dev = NeoTrellis::new(0x2E, wire.driver());
    assert!(is_i2c(dev.set_neopixel_colors(&sixteen_colors()), 0x0101));
    assert_eq!(wire.events().len(), 3);
}

#[test]
fn generic_device_init_resets_without_looking_at_the_identity() {
    let wire = Wire::new();
    let dev = GenericDevice::new_with_default_addr(wire.driver()).init();
    assert!(dev.is_ok());
    assert_eq!(wire.events(), reset(0x49));
}

#[test]
fn arcade_init_verifies_then_enables_the_buttons() {
    let wire = Wire::new();
    wire.reply(&[0x87]);
    let dev = ArcadeButton1x4::new_with_default_addr(wire.driver()).init();
    assert!(dev.is_ok());
    assert_eq!(
        wire.events(),
        join(&[
            reset(0x3A),
            read(0x3A, [0x00, 0x01], 1),
            pull(0x3A, (1u32 << 18).to_be_bytes(), 0x05),
            pull(0x3A, (1u32 << 19).to_be_bytes(), 0x05),
            pull(0x3A, (1u32 << 20).to_be_bytes(), 0x05),
            pull(0x3A, (1u32 << 2).to_be_bytes(), 0x05),
        ])
    );
}

#[test]
fn init_refuses_a_chip_of_another_kind() {
    let wire = Wire::new();
    wire.reply(&[0x55]);
    let r = ArcadeButton1x4::new_with_default_addr(wire.driver()).init();
    assert!(matches!(r, Err(SeesawError::InvalidHardwareId(0x55))));
    assert_eq!(wire.events(), join(&[reset(0x3A), read(0x3A, [0x00, 0x01], 1)]));
}

#[test]
fn neokey_init_enables_keys_then_leds() {
    let wire = Wire::new();
    wire.reply(&[0x55]);
    let dev = NeoKey1x4::new_with_default_addr(wire.driver()).init();
    assert!(dev.is_ok());
    assert_eq!(
        wire.events(),
        join(&[
            reset(0x30),
            read(0x30, [0x00, 0x01], 1),
            pull(0x30, [0, 0, 0, 0xF0], 0x05),
            vec![
                Ev::Write(0x30, vec![0x0E, 0x01, 3]),
                Ev::Delay(125),
                Ev::Delay(10_000),
                Ev::Write(0x30, vec![0x0E, 0x03, 0, 12]),
                Ev::Delay(125),
                Ev::Delay(10_000),
            ],
        ])
    );
}

#[test]
fn neoslider_init_sets_up_the_leds() {
    let wire = Wire::new();
    wire.reply(&[0x87]);
    let dev = NeoSlider::new_with_default_addr(wire.driver()).init();
    assert!(dev.is_ok());
    assert_eq!(
        wire.events(),
        join(&[
            reset(0x30),
            read(0x30, [0x00, 0x01], 1),
            vec![
                Ev::Write(0x30, vec![0x0E, 0x01, 14]),
                Ev::Delay(125),
                Ev::Delay(10_000),
                Ev::Write(0x30, vec![0x0E, 0x03, 0, 12]),
                Ev::Delay(125),
                Ev::Delay(10_000),
            ],
        ])
    );
}

#[test]
fn neorotary_init_enables_four_buttons_then_leds() {
    let wire = Wire::new();
    wire.reply(&[0x87]);
    let dev = NeoRotary4::new_with_default_addr(wire.driver()).init();
    assert!(dev.is_ok());
    let button = |pin: u32| join(&[pull(0x49, (1u32 << pin).to_be_bytes(), 0x05), vec![Ev::Delay(125)]]);
    assert_eq!(
        wire.events(),
        join(&[
            reset(0x49),
            read(0x49, [0x00, 0x01], 1),
            button(12),
            button(14),
            button(17),
            button(9),
            vec![
                Ev::Write(0x49, vec![0x0E, 0x01, 18]),
                Ev::Delay(125),
                Ev::Delay(10_000),
                Ev::Write(0x49, vec![0x0E, 0x03, 0, 12]),
                Ev::Delay(125),
                Ev::Delay(10_000),
            ],
        ])
    );
}

#[test]
fn rotary_encoder_init_enables_button_then_led() {
    let wire = Wire::new();
    wire.reply(&[0x55]);
    let dev = RotaryEncoder::new_with_default_addr(wire.driver()).init();
    assert!(dev.is_ok());
    assert_eq!(
        wire.events(),
        join(&[
            reset(0x36),
            read(0x36, [0x00, 0x01], 1),
            pull(0x36, (1u32 << 24).to_be_bytes(), 0x05),
            vec![Ev::Delay(125)],
            vec![
                Ev::Write(0x36, vec![0x0E, 0x01, 6]),
                Ev::Delay(125),
                Ev::Delay(10_000),
                Ev::Write(0x36, vec![0x0E, 0x03, 0, 3]),
                Ev::Delay(125),
                Ev::Delay(10_000),
            ],
        ])
    );
}

#[test]
fn trellis_init_sets_up_sixteen_leds() {
    let wire = Wire::new();
    wire.reply(&[0x55]);
    let dev = NeoTrellis::new_with_default_addr(wire.driver()).init();
    assert!(dev.is_ok());
    assert_eq!(
        wire.events(),
        join(&[
            reset(0x2E),
            read(0x2E, [0x00, 0x01], 1),
            vec![
                Ev::Write(0x2E, vec![0x0E, 0x01, 3]),
                Ev::Delay(125),
                Ev::Delay(10_000),
                Ev::Write(0x2E, vec![0x0E, 0x03, 0, 48]),
                Ev::Delay(125),
                Ev::Delay(10_000),
            ],
        ])
    );
}

#[test]
fn soil_sensor_init_only_verifies() {
    let wire = Wire::new();
    wire.reply(&[0x55]);
    let dev = SoilSensor::new_with_default_addr(wire.driver()).init();
    assert!(dev.is_ok());
    assert_eq!(wire.events(), join(&[reset(0x36), read(0x36, [0x00, 0x01], 1)]));
}

#[test]
fn init_stops_at_the_first_refused_write() {
    let wire = Wire::new();
    wire.reply(&[0x55]);
    wire.refuse_write(3);
    let r = NeoKey1x4::new_with_default_addr(wire.driver()).init();
    assert!(matches!(r, Err(SeesawError::I2c(0x0103))));
    let done = wire.events();
    assert_eq!(done.last(), Some(&Ev::Write(0x30, vec![0x01, 0x0B, 0, 0, 0, 0xF0])));
}

#[test]
fn arcade_buttons_are_read_one_by_one() {
    let wire = Wire::new();
    let a = !(1u32 << 18);
    let b = u32::MAX;
    let c = 0u32;
    let d = 1u32 << 2;
    for word in [a, b, c, d] {
        wire.reply(&word.to_be_bytes());
    }
    let mut dev = ArcadeButton1x4::new(0x3A, wire.driver());
    let values = dev.button_values().ok().unwrap();
    assert_eq!(values, [true, false, true, false]);
    assert_eq!(
        wire.events(),
        join(&[
            read(0x3A, [0x01, 0x04], 4),
            read(0x3A, [0x01, 0x04], 4),
            read(0x3A, [0x01, 0x04], 4),
            read(0x3A, [0x01, 0x04], 4),
        ])
    );
}

#[test]
fn arcade_buttons_stop_at_a_failed_read() {
    let wire = Wire::new();
    wire.reply(&[0, 0, 0, 0]);
    wire.reply(&[0, 0, 0, 0]);
    wire.refuse_read(2);
    let mut dev = ArcadeButton1x4::new(0x3A, wire.driver());
    assert!(is_i2c(dev.button_values(), 0x0202));
    assert_eq!(wire.events().len(), 9);
}

#[test]
fn arcade_enable_buttons_pulls_up_four_pins_in_order() {
    let wire = Wire::new();
    let mut dev = ArcadeButton1x4::new(0x3A, wire.driver());
    assert!(dev.enable_buttons().is_ok());
    assert_eq!(
        wire.events(),
        join(&[
            pull(0x3A, (1u32 << 18).to_be_bytes(), 0x05),
            pull(0x3A, (1u32 << 19).to_be_bytes(), 0x05),
            pull(0x3A, (1u32 << 20).to_be_bytes(), 0x05),
            pull(0x3A, (1u32 << 2).to_be_bytes(), 0x05),
        ])
    );
}

#[test]
fn arcade_enable_buttons_stops_where_it_is_refused() {
    for nth in [0usize, 4, 7, 11] {
        let wire = Wire::new();
        wire.refuse_write(nth);
        let mut dev = ArcadeButton1x4::new(0x3A, wire.driver());
        assert!(is_i2c(dev.enable_buttons(), 0x0100 + nth as u16));
        assert_eq!(wire.events().len(), 2 * nth + 1);
    }
}

#[test]
fn arcade_duty_cycles_go_to_the_led_pins_in_order() {
    let wire = Wire::new();
    let mut dev = ArcadeButton1x4::new(0x3A, wire.driver());
    assert!(dev.set_led_duty_cycles(&[10, 20, 30, 40]).is_ok());
    assert_eq!(
        wire.events(),
        join(&[
            write(0x3A, &[0x08, 0x01, 12, 10]),
            write(0x3A, &[0x08, 0x01, 13, 20]),
            write(0x3A, &[0x08, 0x01, 0, 30]),
            write(0x3A, &[0x08, 0x01, 1, 40]),
        ])
    );
}

#[test]
fn arcade_duty_cycles_stop_where_they_are_refused() {
    let wire = Wire::new();
    wire.refuse_write(2);
    let mut dev = ArcadeButton1x4::new(0x3A, wire.driver());
    assert!(is_i2c(dev.set_led_duty_cycles(&[10, 20, 30, 40]), 0x0102));
    assert_eq!(
        wire.events(),
        join(&[
            write(0x3A, &[0x08, 0x01, 12, 10]),
            write(0x3A, &[0x08, 0x01, 13, 20]),
            vec![Ev::Write(0x3A, vec![0x08, 0x01, 0, 30])],
        ])
    );
}

#[test]
fn neokey_enables_pins_four_to_seven() {
    let wire = Wire::new();
    let mut dev = NeoKey1x4::new(0x30, wire.driver());
    assert!(dev.enable_button_pins().is_ok());
    assert_eq!(wire.events(), pull(0x30, [0, 0, 0, 0xF0], 0x05));
}

#[test]
fn neokey_keys_are_bits_four_to_seven_of_the_port() {
    let wire = Wire::new();
    wire.reply(&[0xFF, 0xFF, 0xFF, 0xA5]);
    wire.reply(&[0x00, 0x00, 0x00, 0x0F]);
    wire.reply(&[0x12, 0x34, 0x56, 0x78]);
    let mut dev = NeoKey1x4::new(0x30, wire.driver());
    assert!(matches!(dev.keys(), Ok(0x0A)));
    assert!(matches!(dev.keys(), Ok(0x00)));
    assert!(matches!(dev.keys(), Ok(0x07)));
}

#[test]
fn a_driver_can_be_used_without_a_device() {
    let wire = Wire::new();
    wire.reply(&[0x55]);
    let mut driver = wire.driver();
    assert_eq!(driver.read_u8(0x49, &[0x00, 0x01]), Ok(0x55));
    let mut dev = GenericDevice::new(0x49, driver);
    wire.reply(&[0x56]);
    assert!(matches!(dev.driver().read_u8(0x49, &[0x00, 0x01]), Ok(0x56)));
}
