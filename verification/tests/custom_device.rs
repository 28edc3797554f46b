use adafruit_seesaw::driver::{DelaySource, DriverExt, I2cMaster, Pauses, SeesawDriver, Transfers};
use adafruit_seesaw::modules::adc::AdcModule;
use adafruit_seesaw::modules::gpio::GpioModule;
use adafruit_seesaw::modules::keypad::KeypadModule;
use adafruit_seesaw::modules::neopixel::{NeopixelModule, PixelColor};
use adafruit_seesaw::modules::status::StatusModule;
use adafruit_seesaw::modules::timer::TimerModule;
use adafruit_seesaw::modules::HardwareId;
use adafruit_seesaw::{SeesawDevice, SeesawError};
use std::cell::RefCell;
use std::rc::Rc;

#[derive(Default)]
struct Tape {
    frames: Vec<Vec<u8>>,
    delays: Vec<u32>,
    replies: Vec<Vec<u8>>,
}

#[derive(Clone, Default)]
struct Recorder(Rc<RefCell<Tape>>);

impl Recorder {
    fn port(&self) -> SeesawDriver<Recorder, Recorder> {
        SeesawDriver::new(self.clone(), self.clone())
    }

    fn frames(&self) -> Vec<Vec<u8>> {
        self.0.borrow().frames.clone()
    }

    fn delays(&self) -> Vec<u32> {
        self.0.borrow().delays.clone()
    }

    fn clear(&self) {
        self.0.borrow_mut().frames.clear();
    }

    fn reply(&self, bytes: &[u8]) {
        self.0.borrow_mut().replies.push(bytes.to_vec());
    }
}

impl I2cMaster for Recorder {
    type Error = ();

    fn transfers(&self) -> Transfers<()> {
        unreachable!()
    }

    fn send(&mut self, _address: u8, bytes: &[u8]) -> Result<(), ()> {
        self.0.borrow_mut().frames.push(bytes.to_vec());
        Ok(())
    }

    fn receive(&mut self, _address: u8, buffer: &mut [u8]) -> Result<(), ()> {
        let mut tape = self.0.borrow_mut();
        let reply = if tape.replies.is_empty() { Vec::new() } else { tape.replies.remove(0) };
        for (slot, byte) in buffer.iter_mut().zip(reply.iter()) {
            *slot = *byte;
        }
        Ok(())
    }
}

impl DelaySource for Recorder {
    fn pauses(&self) -> Pauses {
        unreachable!()
    }

    fn pause_us(&mut self, us: u32) {
        self.0.borrow_mut().delays.push(us);
    }
}

struct Strip<D> {
    addr: u8,
    driver: D,
}

impl<D: DriverExt> SeesawDevice for Strip<D> {
    type Driver = D;

    const DEFAULT_ADDR: u8 = 0x60;
    const HARDWARE_ID: HardwareId = HardwareId::SAMD09;
    const PRODUCT_ID: u16 = 5766;

    fn address(&self) -> u8 {
        self.addr
    }

    fn bus(&self) -> D {
        unreachable!()
    }

    fn addr(&self) -> u8 {
        self.addr
    }

    fn driver(&mut self) -> &mut D {
        &mut self.driver
    }

    fn new(addr: u8, driver: D) -> Self {
        Strip { addr, driver }
    }

    fn new_with_default_addr(driver: D) -> Self {
        Strip { addr: Self::DEFAULT_ADDR, driver }
    }
}

impl<D: DriverExt> GpioModule<D> for Strip<D> {}

impl<D: DriverExt> AdcModule<D> for Strip<D> {}

impl<D: DriverExt> TimerModule<D> for Strip<D> {}

impl<D: DriverExt> NeopixelModule<D> for Strip<D> {
    type Color = rgb::Rgba<u8>;

    const N_LEDS: usize = 20;
    const PIN: u8 = 15;

    fn strip_fits() {}
}

impl<D: DriverExt> KeypadModule<D> for Strip<D> {
    const NUM_COLS: u8 = 8;
    const NUM_ROWS: u8 = 8;

    fn grid_fits() {}
}

fn rgbw(i: u8) -> rgb::Rgba<u8> {
    rgb::Rgba { r: 4 * i, g: 4 * i + 1, b: 4 * i + 2, a: 4 * i + 3 }
}

#[test]
fn twenty_four_byte_colors_travel_in_chunks_of_seven() {
    let tape = Recorder::default();
    let mut dev = Strip::new(0x60, tape.port());
    let colors: Vec<rgb::Rgba<u8>> = (0u8..20).map(rgbw).collect();
    assert!(dev.set_neopixel_colors(&colors).is_ok());
    let frames = tape.frames();
    assert_eq!(frames.len(), 3);
    let bytes: Vec<u8> = (0u8..80).collect();
    let mut expected = Vec::new();
    for (offset, range) in [(0u16, 0..28), (28, 28..56), (56, 56..80)] {
        let mut frame = vec![0x0E, 0x04];
        frame.extend_from_slice(&offset.to_be_bytes());
        frame.extend_from_slice(&bytes[range]);
        expected.push(frame);
    }
    assert_eq!(frames, expected);
    assert_eq!(tape.delays(), vec![125, 125, 125]);
}

#[test]
fn chunks_of_four_byte_colors_never_split_a_color() {
    let tape = Recorder::default();
    let mut dev = Strip::new(0x60, tape.port());
    let colors: Vec<rgb::Rgba<u8>> = (0u8..20).map(rgbw).collect();
    assert!(dev.set_neopixel_colors(&colors).is_ok());
    let mut total = 0usize;
    let mut offsets = Vec::new();
    for frame in &tape.frames() {
        let colors = &frame[4..];
        assert_eq!(colors.len() % 4, 0);
        assert!(colors.len() / 4 <= 7);
        assert!(frame.len() <= 34);
        offsets.push(u16::from_be_bytes([frame[2], frame[3]]));
        total += colors.len();
    }
    assert_eq!(total, 20 * <rgb::Rgba<u8> as PixelColor>::SIZE);
    assert!(offsets.windows(2).all(|w| w[0] < w[1]));
}

#[test]
fn four_byte_strip_announces_its_buffer_length() {
    let tape = Recorder::default();
    let mut dev = Strip::new_with_default_addr(tape.port());
    assert_eq!(dev.addr(), 0x60);
    assert!(dev.enable_neopixel().is_ok());
    assert_eq!(
        tape.frames(),
        vec![vec![0x0E, 0x01, 15], vec![0x0E, 0x03, 0x00, 80]]
    );
    assert_eq!(tape.delays(), vec![125, 10_000, 125, 10_000]);
}

#[test]
fn four_byte_color_goes_to_four_times_its_index() {
    let tape = Recorder::default();
    let mut dev = Strip::new(0x60, tape.port());
    assert!(dev.set_nth_neopixel_color(19, rgbw(1)).is_ok());
    assert_eq!(tape.frames(), vec![vec![0x0E, 0x04, 0x00, 76, 4, 5, 6, 7]]);
}

#[test]
fn analog_read_on_samd09_goes_through_the_table() {
    let tape = Recorder::default();
    let mut dev = Strip::new(0x60, tape.port());
    for (pin, channel) in [(2u8, 0u8), (3, 1), (4, 2), (5, 3), (0, 0), (9, 0)] {
        tape.clear();
        tape.reply(&[0x02, 0x01]);
        assert!(matches!(dev.analog_read(pin), Ok(0x0201)));
        assert_eq!(tape.frames(), vec![vec![0x09, 0x07 + channel]]);
    }
}

#[test]
fn analog_write_on_samd09_goes_through_the_table() {
    let tape = Recorder::default();
    let mut dev = Strip::new(0x60, tape.port());
    for (pin, channel) in [(4u8, 0u8), (5, 1), (6, 2), (7, 3), (0, 0), (9, 0)] {
        tape.clear();
        assert!(dev.analog_write(pin, 0x7F).is_ok());
        assert_eq!(tape.frames(), vec![vec![0x08, 0x01, channel, 0x7F]]);
    }
}

#[test]
fn a_larger_keypad_numbers_its_keys_by_row() {
    let tape = Recorder::default();
    let mut dev = Strip::new(0x60, tape.port());
    assert!(dev.set_key_event_triggers(7, 7, &[], true).is_ok());
    assert_eq!(tape.frames(), vec![vec![0x10, 0x01, 63, 1]]);
}

#[test]
fn status_is_there_for_every_device() {
    let tape = Recorder::default();
    let mut dev = Strip::new(0x60, tape.port());
    tape.reply(&[0x55]);
    assert!(dev.reset_and_verify_seesaw().is_ok());
    tape.reply(&[0x87]);
    let r: Result<(), SeesawError<()>> = dev.reset_and_verify_seesaw();
    assert!(matches!(r, Err(SeesawError::InvalidHardwareId(0x87))));
}
