use adafruit_seesaw::driver::{DelaySource, Driver, DriverExt, I2cMaster, Pauses, SeesawDriver, Transfers};
use std::cell::RefCell;
use std::collections::VecDeque;
use std::rc::Rc;

#[derive(Debug, Clone, PartialEq, Eq)]
enum Ev {
    Write(u8, Vec<u8>),
    Read(u8, usize),
    Delay(u32),
}

#[derive(Default)]
struct Tape {
    events: Vec<Ev>,
    replies: VecDeque<Vec<u8>>,
    refuse_write: Option<usize>,
    refuse_read: Option<usize>,
    writes: usize,
    reads: usize,
}

#[derive(Clone)]
struct Wire(Rc<RefCell<Tape>>);

impl Wire {
    fn new() -> Self {
        Wire(Rc::new(RefCell::new(Tape::default())))
    }

    fn reply(&self, bytes: &[u8]) {
        self.0.borrow_mut().replies.push_back(bytes.to_vec());
    }

    fn refuse_write(&self, nth: usize) {
        self.0.borrow_mut().refuse_write = Some(nth);
    }

    fn refuse_read(&self, nth: usize) {
        self.0.borrow_mut().refuse_read = Some(nth);
    }

    fn events(&self) -> Vec<Ev> {
        self.0.borrow().events.clone()
    }

    fn driver(&self) -> SeesawDriver<Wire, Wire> {
        SeesawDriver::new(self.clone(), self.clone())
    }
}

impl I2cMaster for Wire {
    type Error = u16;

    fn transfers(&self) -> Transfers<u16> {
        unreachable!()
    }

    fn send(&mut self, address: u8, bytes: &[u8]) -> Result<(), u16> {
        let mut tape = self.0.borrow_mut();
        tape.events.push(Ev::Write(address, bytes.to_vec()));
        let n = tape.writes;
        tape.writes += 1;
        if tape.refuse_write == Some(n) {
            Err(0x0100 + n as u16)
        } else {
            Ok(())
        }
    }

    fn receive(&mut self, address: u8, buffer: &mut [u8]) -> Result<(), u16> {
        let mut tape = self.0.borrow_mut();
        tape.events.push(Ev::Read(address, buffer.len()));
        let n = tape.reads;
        tape.reads += 1;
        if tape.refuse_read == Some(n) {
            return Err(0x0200 + n as u16);
        }
        let reply = tape.replies.pop_front().unwrap_or_default();
        for (slot, byte) in buffer.iter_mut().zip(reply.iter()) {
            *slot = *byte;
        }
        Ok(())
    }
}

impl DelaySource for Wire {
    fn pauses(&self) -> Pauses {
        unreachable!()
    }

    fn pause_us(&mut self, us: u32) {
        self.0.borrow_mut().events.push(Ev::Delay(us));
    }
}

#[test]
fn a_new_driver_has_asked_its_transport_for_nothing() {
    let wire = Wire::new();
    let _driver = wire.driver();
    assert!(wire.events().is_empty());
}

#[test]
fn plain_operations_reach_the_transport_unchanged() {
    let wire = Wire::new();
    wire.reply(&[7, 8, 9]);
    let mut driver = wire.driver();
    assert_eq!(driver.write(0x2A, &[1, 2, 3]), Ok(()));
    driver.delay_us(77);
    assert_eq!(driver.read::<3>(0x2A), Ok([7, 8, 9]));
    assert_eq!(
        wire.events(),
        vec![Ev::Write(0x2A, vec![1, 2, 3]), Ev::Delay(77), Ev::Read(0x2A, 3)]
    );
}

#[test]
fn the_driver_is_itself_a_transport_that_passes_everything_on() {
    let wire = Wire::new();
    wire.reply(&[5, 6]);
    let mut driver = wire.driver();
    assert_eq!(driver.send(0x11, &[0xAB, 0xCD]), Ok(()));
    driver.pause_us(3);
    let mut buffer = [0u8; 2];
    assert_eq!(driver.receive(0x11, &mut buffer), Ok(()));
    assert_eq!(buffer, [5, 6]);
    assert_eq!(
        wire.events(),
        vec![Ev::Write(0x11, vec![0xAB, 0xCD]), Ev::Delay(3), Ev::Read(0x11, 2)]
    );
}

#[test]
fn a_driver_can_be_the_transport_of_another_driver() {
    let wire = Wire::new();
    wire.reply(&[0x55]);
    let mut outer = SeesawDriver::new(wire.driver(), wire.driver());
    assert_eq!(outer.read_u8(0x49, &[0x00, 0x01]), Ok(0x55));
    assert_eq!(
        wire.events(),
        vec![Ev::Write(0x49, vec![0x00, 0x01]), Ev::Delay(125), Ev::Read(0x49, 1)]
    );
}

#[test]
fn a_transport_error_passes_through_the_driver_untouched() {
    let wire = Wire::new();
    wire.refuse_write(0);
    wire.refuse_read(0);
    let mut driver = wire.driver();
    assert_eq!(driver.send(0x11, &[1]), Err(0x0100));
    let mut buffer = [0u8; 1];
    assert_eq!(driver.receive(0x11, &mut buffer), Err(0x0200));
}

#[test]
fn register_write_sends_address_and_payload_in_one_phase() {
    let wire = Wire::new();
    let mut driver = wire.driver();
    let r = driver.register_write(0x49, &[0x0E, 0x04], &[0x00, 0x1B, 1, 2, 3]);
    assert_eq!(r, Ok(()));
    assert_eq!(
        wire.events(),
        vec![Ev::Write(0x49, vec![0x0E, 0x04, 0x00, 0x1B, 1, 2, 3]), Ev::Delay(125)]
    );
}

#[test]
fn register_write_with_empty_payload_sends_the_address_alone() {
    let wire = Wire::new();
    let mut driver = wire.driver();
    assert_eq!(driver.register_write(0x30, &[0x0E, 0x05], &[]), Ok(()));
    assert_eq!(wire.events(), vec![Ev::Write(0x30, vec![0x0E, 0x05]), Ev::Delay(125)]);
}

#[test]
fn register_write_takes_the_largest_payload() {
    let wire = Wire::new();
    let mut driver = wire.driver();
    let payload: Vec<u8> = (0u8..32).collect();
    assert_eq!(driver.register_write(0x30, &[0x0E, 0x04], &payload), Ok(()));
    let mut frame = vec![0x0E, 0x04];
    frame.extend_from_slice(&payload);
    assert_eq!(wire.events(), vec![Ev::Write(0x30, frame), Ev::Delay(125)]);
}

#[test]
fn refused_write_is_not_followed_by_a_delay() {
    let wire = Wire::new();
    wire.refuse_write(0);
    let mut driver = wire.driver();
    let r = driver.register_write(0x49, &[0x01, 0x03], &[0xAA]);
    assert_eq!(r, Err(0x0100));
    assert_eq!(wire.events(), vec![Ev::Write(0x49, vec![0x01, 0x03, 0xAA])]);
}

#[test]
fn register_read_is_write_then_delay_then_read() {
    let wire = Wire::new();
    wire.reply(&[0xDE, 0xAD, 0xBE, 0xEF]);
    let mut driver = wire.driver();
    let r = driver.register_read::<4>(0x36, &[0x01, 0x04]);
    assert_eq!(r, Ok([0xDE, 0xAD, 0xBE, 0xEF]));
    assert_eq!(
        wire.events(),
        vec![Ev::Write(0x36, vec![0x01, 0x04]), Ev::Delay(125), Ev::Read(0x36, 4)]
    );
}

#[test]
fn register_read_with_delay_waits_as_long_as_asked() {
    let wire = Wire::new();
    wire.reply(&[0x01, 0x02]);
    let mut driver = wire.driver();
    let r = driver.register_read_with_delay::<2>(0x36, &[0x0F, 0x10], 3000);
    assert_eq!(r, Ok([0x01, 0x02]));
    assert_eq!(
        wire.events(),
        vec![Ev::Write(0x36, vec![0x0F, 0x10]), Ev::Delay(3000), Ev::Read(0x36, 2)]
    );
}

#[test]
fn read_whose_address_phase_is_refused_stops_there() {
    let wire = Wire::new();
    wire.refuse_write(0);
    let mut driver = wire.driver();
    assert_eq!(driver.register_read::<2>(0x36, &[0x09, 0x07]), Err(0x0100));
    assert_eq!(wire.events(), vec![Ev::Write(0x36, vec![0x09, 0x07])]);
}

#[test]
fn read_whose_read_phase_fails_reports_that_error() {
    let wire = Wire::new();
    wire.refuse_read(0);
    let mut driver = wire.driver();
    assert_eq!(driver.register_read::<2>(0x36, &[0x09, 0x07]), Err(0x0200));
    assert_eq!(
        wire.events(),
        vec![Ev::Write(0x36, vec![0x09, 0x07]), Ev::Delay(125), Ev::Read(0x36, 2)]
    );
}

#[test]
fn unsigned_accessors_are_big_endian() {
    let wire = Wire::new();
    wire.reply(&[0x12]);
    wire.reply(&[0x12, 0x34]);
    wire.reply(&[0x12, 0x34, 0x56, 0x78]);
    wire.reply(&[0x01, 0x23, 0x45, 0x67, 0x89, 0xAB, 0xCD, 0xEF]);
    let mut driver = wire.driver();
    let reg = [0x00, 0x02];
    assert_eq!(driver.read_u8(1, &reg), Ok(0x12));
    assert_eq!(driver.read_u16(1, &reg), Ok(0x1234));
    assert_eq!(driver.read_u32(1, &reg), Ok(0x1234_5678));
    assert_eq!(driver.read_u64(1, &reg), Ok(0x0123_4567_89AB_CDEF));
}

#[test]
fn signed_accessors_keep_the_sign() {
    let wire = Wire::new();
    wire.reply(&[0xFF]);
    wire.reply(&[0xFF, 0xFE]);
    wire.reply(&[0xFF, 0xFF, 0xFF, 0xFD]);
    wire.reply(&[0x80, 0, 0, 0, 0, 0, 0, 0]);
    let mut driver = wire.driver();
    let reg = [0x11, 0x30];
    assert_eq!(driver.read_i8(1, &reg), Ok(-1));
    assert_eq!(driver.read_i16(1, &reg), Ok(-2));
    assert_eq!(driver.read_i32(1, &reg), Ok(-3));
    assert_eq!(driver.read_i64(1, &reg), Ok(i64::MIN));
}

#[test]
fn write_accessors_are_big_endian() {
    let wire = Wire::new();
    let mut driver = wire.driver();
    let reg = [0x0A, 0x0B];
    assert_eq!(driver.write_u8(7, &reg, 0x12), Ok(()));
    assert_eq!(driver.write_u16(7, &reg, 0x1234), Ok(()));
    assert_eq!(driver.write_u32(7, &reg, 0x1234_5678), Ok(()));
    assert_eq!(driver.write_u64(7, &reg, 0x0123_4567_89AB_CDEF), Ok(()));
    assert_eq!(driver.write_i8(7, &reg, -1), Ok(()));
    assert_eq!(driver.write_i16(7, &reg, -2), Ok(()));
    assert_eq!(driver.write_i32(7, &reg, -3), Ok(()));
    assert_eq!(driver.write_i64(7, &reg, i64::MIN), Ok(()));
    let frames: Vec<Vec<u8>> = wire
        .events()
        .into_iter()
        .filter_map(|e| match e {
            Ev::Write(_, bytes) => Some(bytes),
            _ => None,
        })
        .collect();
    assert_eq!(
        frames,
        vec![
            vec![0x0A, 0x0B, 0x12],
            vec![0x0A, 0x0B, 0x12, 0x34],
            vec![0x0A, 0x0B, 0x12, 0x34, 0x56, 0x78],
            vec![0x0A, 0x0B, 0x01, 0x23, 0x45, 0x67, 0x89, 0xAB, 0xCD, 0xEF],
            vec![0x0A, 0x0B, 0xFF],
            vec![0x0A, 0x0B, 0xFF, 0xFE],
            vec![0x0A, 0x0B, 0xFF, 0xFF, 0xFF, 0xFD],
            vec![0x0A, 0x0B, 0x80, 0, 0, 0, 0, 0, 0, 0],
        ]
    );
}

#[test]
fn what_is_written_reads_back_for_every_width() {
    let wire = Wire::new();
    let mut driver = wire.driver();
    let reg = [0x00, 0x04];
    driver.write_u16(1, &reg, 0xBEEF).unwrap();
    driver.write_i32(1, &reg, -123_456_789).unwrap();
    driver.write_u64(1, &reg, u64::MAX - 5).unwrap();
    let frames: Vec<Vec<u8>> = wire
        .events()
        .into_iter()
        .filter_map(|e| match e {
            Ev::Write(_, bytes) => Some(bytes[2..].to_vec()),
            _ => None,
        })
        .collect();
    for frame in &frames {
        wire.reply(frame);
    }
    assert_eq!(driver.read_u16(1, &reg), Ok(0xBEEF));
    assert_eq!(driver.read_i32(1, &reg), Ok(-123_456_789));
    assert_eq!(driver.read_u64(1, &reg), Ok(u64::MAX - 5));
}
