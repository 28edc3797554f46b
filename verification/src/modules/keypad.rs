//! Keypad scanning: event triggers per key and the queue of key events.
use vstd::prelude::*;
use vstd::std_specs::convert::FromSpecImpl;
use crate::devices::SeesawDevice;
use crate::driver::{DriverExt, Reg};
use crate::error::SeesawError;

verus! {

pub const STATUS: Reg = [0x10, 0x00];

pub const EVENT: Reg = [0x10, 0x01];

pub const INT_SET: Reg = [0x10, 0x02];

pub const INT_CLR: Reg = [0x10, 0x03];

pub const COUNT: Reg = [0x10, 0x04];

pub const FIFO: Reg = [0x10, 0x10];

/// Depth of the chip's event queue, and so the most events one poll can
/// deliver. What the chip could not queue is lost without a trace.
pub const FIFO_DEPTH: usize = 16;

#[derive(Debug, Clone, Copy, PartialEq, Eq, Structural)]
pub enum KeyEventType {
    /// steady-state key is down
    IsPressed,
    /// steady-state key is up
    IsReleased,
    /// one-shot as key is released
    Released,
    /// one-shot as key is pressed
    Pressed,
}

impl KeyEventType {
    /// The transition's number: the two low bits of an event byte.
    pub open spec fn code(self) -> u8 {
        match self {
            KeyEventType::IsPressed => 0,
            KeyEventType::IsReleased => 1,
            KeyEventType::Released => 2,
            KeyEventType::Pressed => 3,
        }
    }

    /// The transition's bit in the edge mask of a trigger: bit 0 of the mask
    /// is the enable flag, the transitions follow from bit 1 on.
    pub open spec fn edge(self) -> u8 {
        match self {
            KeyEventType::IsPressed => 2,
            KeyEventType::IsReleased => 4,
            KeyEventType::Released => 8,
            KeyEventType::Pressed => 16,
        }
    }

    /// The transition's number.
    pub fn into_u8(self) -> (b: u8)
        ensures
            b == self.code(),
    {
        match self {
            KeyEventType::IsPressed => 0,
            KeyEventType::IsReleased => 1,
            KeyEventType::Released => 2,
            KeyEventType::Pressed => 3,
        }
    }
}

#[derive(Debug, Clone, Copy, PartialEq, Eq, Structural)]
pub struct KeyEvent {
    pub event: KeyEventType,
    pub x: u8,
    pub y: u8,
}

impl KeyEvent {
    /// The event that a byte of the queue stands for: the transition in bits
    /// 0 and 1, the column in bits 2 to 4, the row in bits 5 to 7.
    pub open spec fn decode(value: u8) -> KeyEvent {
        KeyEvent {
            event: if value & 3 == 0 {
                KeyEventType::IsPressed
            } else if value & 3 == 1 {
                KeyEventType::IsReleased
            } else if value & 3 == 2 {
                KeyEventType::Released
            } else {
                KeyEventType::Pressed
            },
            x: (value >> 2) & 7,
            y: (value >> 2) >> 3,
        }
    }

    /// The byte of the queue that stands for an event.
    pub open spec fn pack(self) -> u8 {
        (self.y << 5) | (self.x << 2) | self.event.code()
    }

    /// Decodes one byte of the queue.
    pub fn from_byte(value: u8) -> (ev: KeyEvent)
        ensures
            ev == KeyEvent::decode(value),
            ev.x < 8,
            ev.y < 8,
    {
        assert(value & 3 == 0 || value & 3 == 1 || value & 3 == 2 || value & 3 == 3)
            by (bit_vector);
        assert((value >> 2) & 7 < 8 && (value >> 2) >> 3 < 8) by (bit_vector);
        let event = match value & 3 {
            0 => KeyEventType::IsPressed,
            1 => KeyEventType::IsReleased,
            2 => KeyEventType::Released,
            _ => KeyEventType::Pressed,
        };
        let x = (value >> 2) & 7;
        let y = (value >> 2) >> 3;
        KeyEvent { event, x, y }
    }

    /// Encodes the event as the chip would queue it.
    pub fn to_byte(&self) -> (b: u8)
        requires
            self.x < 8,
            self.y < 8,
        ensures
            b == self.pack(),
    {
        (self.y << 5) | (self.x << 2) | self.event.into_u8()
    }
}

impl From<u8> for KeyEvent {
    fn from(value: u8) -> (ev: Self) {
        KeyEvent::from_byte(value)
    }
}

impl FromSpecImpl<u8> for KeyEvent {
    open spec fn obeys_from_spec() -> bool {
        true
    }

    open spec fn from_spec(value: u8) -> Self {
        KeyEvent::decode(value)
    }
}

/// Encoding what a byte decodes to gives the byte back, for every byte.
pub proof fn lemma_decode_then_pack(value: u8)
    ensures
        KeyEvent::decode(value).pack() == value,
{
    let ev = KeyEvent::decode(value);
    let low = value & 3;
    assert(low == 0 || low == 1 || low == 2 || low == 3) by (bit_vector)
        requires
            low == value & 3,
    ;
    assert(ev.event.code() == low);
    assert(((((value >> 2) >> 3) << 5) | (((value >> 2) & 7) << 2) | low) == value)
        by (bit_vector)
        requires
            low == value & 3,
    ;
}

/// Decoding what an event encodes to gives the event back, as long as
/// column and row fit their three bits.
pub proof fn lemma_pack_then_decode(ev: KeyEvent)
    requires
        ev.x < 8,
        ev.y < 8,
    ensures
        KeyEvent::decode(ev.pack()) == ev,
{
    let x = ev.x;
    let y = ev.y;
    let c = ev.event.code();
    let b = (y << 5) | (x << 2) | c;
    assert(b & 3 == c && (b >> 2) & 7 == x && (b >> 2) >> 3 == y) by (bit_vector)
        requires
            x < 8,
            y < 8,
            c < 4,
            b == (y << 5) | (x << 2) | c,
    ;
}

/// The events of one poll, in the order in which the chip queued them.
#[derive(Debug, Clone, Copy)]
pub struct KeyEventIter {
    buf: [Option<KeyEvent>; 16],
    curr: usize,
}

/// A buffer with nothing in it.
fn empty_slots() -> (buf: [Option<KeyEvent>; 16])
    ensures
        forall|j: int| 0 <= j < 16 ==> buf[j] is None,
{
    let e: Option<KeyEvent> = None;
    [e, e, e, e, e, e, e, e, e, e, e, e, e, e, e, e]
}

/// The events that a buffer holds from position `from` on, up to the first
/// empty slot.
pub open spec fn pending(buf: Seq<Option<KeyEvent>>, from: int) -> Seq<KeyEvent>
    decreases buf.len() - from,
{
    if 0 <= from < buf.len() && buf[from] is Some {
        seq![buf[from]->Some_0] + pending(buf, from + 1)
    } else {
        Seq::empty()
    }
}

impl KeyEventIter {
    /// The filled slots come first: after an empty slot every slot is empty.
    #[verifier::type_invariant]
    spec fn filled_first(self) -> bool {
        forall|i: int, j: int| 0 <= i <= j < 16 && self.buf[i] is None ==> self.buf[j] is None
    }

    /// The events that have not been handed out yet, oldest first.
    pub closed spec fn remaining(&self) -> Seq<KeyEvent> {
        pending(self.buf@, self.curr as int)
    }

    /// Hands out the oldest event that is left.
    pub fn next(&mut self) -> (r: Option<KeyEvent>)
        ensures
            old(self).remaining().len() == 0 ==> r is None && final(self).remaining().len() == 0,
            old(self).remaining().len() > 0 ==> r == Some(old(self).remaining()[0])
                && final(self).remaining() == old(self).remaining().drop_first(),
    {
        proof {
            use_type_invariant(&*self);
        }
        if self.curr >= 16 {
            return None;
        }
        let rec = self.buf[self.curr];
        proof {
            if rec is Some {
                assert(old(self).remaining().drop_first() =~= pending(
                    self.buf@,
                    self.curr as int + 1,
                ));
            } else {
                if self.curr + 1 < 16 {
                    assert(self.buf[self.curr as int + 1] is None);
                }
            }
        }
        self.curr += 1;
        rec
    }
}

impl KeyEventIter {
    /// The first `count` bytes of a queue read, decoded.
    pub fn from_fifo(fifo: &[u8; 16], count: usize) -> (it: Self)
        requires
            count <= FIFO_DEPTH,
        ensures
            it.remaining() == Seq::new(count as nat, |i: int| KeyEvent::decode(fifo[i])),
    {
        let mut buf = empty_slots();
        let mut i: usize = 0;
        while i < count
            invariant
                i <= count <= 16,
                forall|j: int| 0 <= j < i ==> buf[j] == Some(KeyEvent::decode(fifo[j])),
                forall|j: int| i <= j < 16 ==> buf[j] is None,
            decreases count - i,
        {
            buf[i] = Some(KeyEvent::from_byte(fifo[i]));
            i += 1;
        }
        let it = KeyEventIter { buf, curr: 0 };
        proof {
            lemma_pending_filled(buf@, *fifo, count as int, 0);
            assert(pending(buf@, 0) =~= Seq::new(
                count as nat,
                |i: int| KeyEvent::decode(fifo[i]),
            ));
        }
        it
    }
}

/// In a buffer whose first `count` slots hold the decoded bytes of `fifo`
/// and whose other slots are empty, the events from `from` on are the
/// decoded bytes from `from` to `count`.
proof fn lemma_pending_filled(buf: Seq<Option<KeyEvent>>, fifo: [u8; 16], count: int, from: int)
    requires
        buf.len() == 16,
        0 <= from <= count <= 16,
        forall|j: int| 0 <= j < count ==> buf[j] == Some(KeyEvent::decode(fifo[j])),
        forall|j: int| count <= j < 16 ==> buf[j] is None,
    ensures
        pending(buf, from).len() == count - from,
        forall|i: int|
            0 <= i < count - from ==> (#[trigger] pending(buf, from)[i]) == KeyEvent::decode(
                fifo[from + i],
            ),
    decreases count - from,
{
    if from < count {
        lemma_pending_filled(buf, fifo, count, from + 1);
        let rest = pending(buf, from + 1);
        assert forall|i: int| 0 <= i < count - from implies (#[trigger] pending(buf, from)[i])
            == KeyEvent::decode(fifo[from + i]) by {
            if i > 0 {
                assert(pending(buf, from)[i] == rest[i - 1]);
            }
        }
    }
}

impl Default for KeyEventIter {
    fn default() -> (it: Self)
        ensures
            it.remaining() == Seq::<KeyEvent>::empty(),
    {
        KeyEventIter { buf: empty_slots(), curr: 0 }
    }
}

/// The number that names the key in column `x` of row `y` in a trigger.
pub open spec fn key_id(x: u8, y: u8) -> u8 {
    (y * 8 + x) as u8
}

/// The edge byte of a trigger: 1 if events are switched on, plus the bit of
/// each transition that `types` lists. A transition that is listed twice is
/// counted twice.
pub open spec fn edge_sum(types: Seq<KeyEventType>, enable: bool) -> int
    decreases types.len(),
{
    if types.len() == 0 {
        if enable {
            1
        } else {
            0
        }
    } else {
        edge_sum(types.drop_last(), enable) + types.last().edge()
    }
}

/// The edge mask of a set of transitions: bit 0 tells whether events are
/// switched on or off, and each transition of `types` sets its own bit.
pub open spec fn edge_mask(types: Seq<KeyEventType>, enable: bool) -> int {
    (if enable {
        1int
    } else {
        0int
    }) + (if types.contains(KeyEventType::IsPressed) {
        2int
    } else {
        0int
    }) + (if types.contains(KeyEventType::IsReleased) {
        4int
    } else {
        0int
    }) + (if types.contains(KeyEventType::Released) {
        8int
    } else {
        0int
    }) + (if types.contains(KeyEventType::Pressed) {
        16int
    } else {
        0int
    })
}

/// Where no transition is listed twice, the edge byte is the edge mask of
/// the set: one bit for each transition listed, and it fits its byte.
pub proof fn lemma_edge_sum_of_set(types: Seq<KeyEventType>, enable: bool)
    requires
        types.no_duplicates(),
    ensures
        edge_sum(types, enable) == edge_mask(types, enable),
        0 <= edge_sum(types, enable) <= 31,
    decreases types.len(),
{
    if types.len() == 0 {
        assert(forall|t: KeyEventType| !types.contains(t));
    } else {
        let seen = types.drop_last();
        let e = types.last();
        lemma_edge_sum_of_set(seen, enable);
        assert(!seen.contains(e)) by {
            if seen.contains(e) {
                let j = choose|j: int| 0 <= j < seen.len() && seen[j] == e;
                assert(types[j] == types[types.len() - 1]);
            }
        }
        assert forall|t: KeyEventType| types.contains(t) == (seen.contains(t) || t == e) by {
            if seen.contains(t) {
                let j = choose|j: int| 0 <= j < seen.len() && seen[j] == t;
                assert(types[j] == t);
            }
            if t == e {
                assert(types[types.len() - 1] == e);
            }
            if types.contains(t) {
                let j = choose|j: int| 0 <= j < types.len() && types[j] == t;
                if j < types.len() - 1 {
                    assert(seen[j] == t);
                }
            }
        }
    }
}

/// What a poll of the event queue adds to the transcript when the chip
/// reports `count` pending events: the count register is read, and only if
/// it is not zero the whole queue register after it, which delivered `fifo`.
pub open spec fn polled<E>(
    before: Seq<crate::driver::BusEvent<E>>,
    after: Seq<crate::driver::BusEvent<E>>,
    addr: u8,
    count: u8,
    fifo: Seq<u8>,
) -> bool {
    if count == 0 {
        after == before + crate::driver::read_ok(
            addr,
            COUNT,
            crate::driver::DELAY_TIME as nat,
            seq![0u8],
        )
    } else {
        &&& fifo.len() == FIFO_DEPTH
        &&& after == before + crate::driver::read_ok(
            addr,
            COUNT,
            crate::driver::DELAY_TIME as nat,
            seq![count],
        ) + crate::driver::read_ok(addr, FIFO, crate::driver::DELAY_TIME as nat, fifo)
    }
}

/// The events of a poll: as many bytes of the queue as the chip counted, and
/// never more than the queue is deep, each decoded, in queue order.
pub open spec fn poll_events(count: u8, fifo: Seq<u8>) -> Seq<KeyEvent> {
    Seq::new(
        if count <= FIFO_DEPTH {
            count as nat
        } else {
            FIFO_DEPTH as nat
        },
        |i: int| KeyEvent::decode(fifo[i]),
    )
}

pub trait KeypadModule<D: DriverExt>: SeesawDevice<Driver = D> {
    const NUM_COLS: u8;

    const NUM_ROWS: u8;

    /// Column and row of a key fit the three bits each has in an event byte.
    proof fn grid_fits()
        ensures
            Self::NUM_COLS <= 8,
            Self::NUM_ROWS <= 8,
    ;

    fn num_cols(&self) -> (n: u8)
        ensures
            n == Self::NUM_COLS,
    {
        Self::NUM_COLS
    }

    fn num_rows(&self) -> (n: u8)
        ensures
            n == Self::NUM_ROWS,
    {
        Self::NUM_ROWS
    }

    /// Stops the keypad from raising the interrupt line.
    fn disable_interrupt(&mut self) -> (r: Result<(), SeesawError<D::Error>>)
        ensures
            final(self).address() == old(self).address(),
            r is Err ==> r->Err_0 is I2c,
            crate::driver::wrote(
                crate::devices::log(*old(self)),
                crate::devices::log(*final(self)),
                old(self).address(),
                INT_CLR,
                seq![1u8],
                crate::driver::DELAY_TIME as nat,
                crate::error::bus_result(r),
            ),
    {
        let addr = self.addr();
        crate::error::from_bus(self.driver().write_u8(addr, &INT_CLR, 1))
    }

    /// Lets the keypad raise the interrupt line when an event is queued.
    fn enable_interrupt(&mut self) -> (r: Result<(), SeesawError<D::Error>>)
        ensures
            final(self).address() == old(self).address(),
            r is Err ==> r->Err_0 is I2c,
            crate::driver::wrote(
                crate::devices::log(*old(self)),
                crate::devices::log(*final(self)),
                old(self).address(),
                INT_SET,
                seq![1u8],
                crate::driver::DELAY_TIME as nat,
                crate::error::bus_result(r),
            ),
    {
        let addr = self.addr();
        crate::error::from_bus(self.driver().write_u8(addr, &INT_SET, 1))
    }

    /// Polls the event queue: reads how many events are pending and, unless
    /// there are none, the queue itself in one burst.
    fn read_key_events(&mut self) -> (r: Result<KeyEventIter, SeesawError<D::Error>>)
        ensures
            final(self).address() == old(self).address(),
            match r {
                Ok(events) => exists|count: u8, fifo: Seq<u8>|
                    {
                        &&& #[trigger] polled(
                            crate::devices::log(*old(self)),
                            crate::devices::log(*final(self)),
                            old(self).address(),
                            count,
                            fifo,
                        )
                        &&& events.remaining() == poll_events(count, fifo)
                    },
                Err(SeesawError::I2c(e)) => {
                    ||| crate::driver::read_failed(
                        crate::devices::log(*old(self)),
                        crate::devices::log(*final(self)),
                        old(self).address(),
                        COUNT,
                        crate::driver::DELAY_TIME as nat,
                        1,
                        e,
                    )
                    ||| exists|count: u8|
                        count != 0 && crate::driver::read_failed(
                            crate::devices::log(*old(self)) + #[trigger] crate::driver::read_ok(
                                old(self).address(),
                                COUNT,
                                crate::driver::DELAY_TIME as nat,
                                seq![count],
                            ),
                            crate::devices::log(*final(self)),
                            old(self).address(),
                            FIFO,
                            crate::driver::DELAY_TIME as nat,
                            FIFO_DEPTH as nat,
                            e,
                        )
                },
                Err(SeesawError::InvalidHardwareId(_)) => false,
            },
    {
        let addr = self.addr();
        let ghost before = crate::devices::log(*self);
        let n = match self.driver().read_u8(addr, &COUNT) {
            Ok(n) => n,
            Err(e) => {
                return Err(SeesawError::I2c(e));
            },
        };
        if n == 0 {
            let events = KeyEventIter::default();
            proof {
                assert(polled(before, crate::devices::log(*self), addr, 0, Seq::<u8>::empty()));
                assert(events.remaining() =~= poll_events(0, Seq::<u8>::empty()));
            }
            return Ok(events);
        }
        let fifo = match self.driver().register_read::<16>(addr, &FIFO) {
            Ok(fifo) => fifo,
            Err(e) => {
                return Err(SeesawError::I2c(e));
            },
        };
        let count: usize = if n as usize > FIFO_DEPTH {
            FIFO_DEPTH
        } else {
            n as usize
        };
        let events = KeyEventIter::from_fifo(&fifo, count);
        proof {
            assert(polled(before, crate::devices::log(*self), addr, n, fifo@));
            assert(events.remaining() =~= poll_events(n, fifo@));
        }
        Ok(events)
    }

    /// Switches the events of one key on or off: one register write of two
    /// bytes, the key's number and the edge mask.
    fn set_key_event_triggers(&mut self, x: u8, y: u8, types: &[KeyEventType], enable: bool) -> (r:
        Result<(), SeesawError<D::Error>>)
        requires
            x < Self::NUM_COLS,
            y < Self::NUM_ROWS,
            edge_sum(types@, enable) <= u8::MAX,
        ensures
            final(self).address() == old(self).address(),
            r is Err ==> r->Err_0 is I2c,
            crate::driver::wrote(
                crate::devices::log(*old(self)),
                crate::devices::log(*final(self)),
                old(self).address(),
                EVENT,
                seq![key_id(x, y), edge_sum(types@, enable) as u8],
                crate::driver::DELAY_TIME as nat,
                crate::error::bus_result(r),
            ),
    {
        proof {
            Self::grid_fits();
        }
        let addr = self.addr();
        assert((y << 3) == y * 8) by (bit_vector)
            requires
                y < 8,
        ;
        let key = (y << 3) + x;
        let edges = edge_mask_of(types, enable);
        let payload: [u8; 2] = [key, edges];
        assert(payload@ =~= seq![key_id(x, y), edge_sum(types@, enable) as u8]);
        crate::error::from_bus(self.driver().register_write(addr, &EVENT, payload.as_slice()))
    }
}

/// Computes the edge byte of a trigger.
pub fn edge_mask_of(types: &[KeyEventType], enable: bool) -> (mask: u8)
    requires
        edge_sum(types@, enable) <= u8::MAX,
    ensures
        mask == edge_sum(types@, enable),
{
    assert(2u8 << 0u8 == 2 && 2u8 << 1u8 == 4 && 2u8 << 2u8 == 8 && 2u8 << 3u8 == 16)
        by (bit_vector);
    let mut acc: u8 = if enable {
        1
    } else {
        0
    };
    let mut i: usize = 0;
    assert(types@.take(0) =~= Seq::<KeyEventType>::empty());
    while i < types.len()
        invariant
            i <= types@.len(),
            edge_sum(types@, enable) <= u8::MAX,
            acc == edge_sum(types@.take(i as int), enable),
            2u8 << 0u8 == 2 && 2u8 << 1u8 == 4 && 2u8 << 2u8 == 8 && 2u8 << 3u8 == 16,
        decreases types@.len() - i,
    {
        let e = types[i];
        proof {
            assert(types@.take(i as int + 1).drop_last() =~= types@.take(i as int));
            lemma_edge_sum_grows(types@, enable, i as int + 1);
        }
        acc = acc + (2u8 << e.into_u8());
        i += 1;
    }
    assert(types@.take(i as int) =~= types@);
    acc
}

/// The edge byte of a beginning of a list is at most that of the list.
proof fn lemma_edge_sum_grows(types: Seq<KeyEventType>, enable: bool, k: int)
    requires
        0 <= k <= types.len(),
    ensures
        0 <= edge_sum(types.take(k), enable) <= edge_sum(types, enable),
    decreases types.len() - k,
{
    if k == types.len() {
        assert(types.take(k) =~= types);
        lemma_edge_sum_positive(types, enable);
    } else {
        lemma_edge_sum_grows(types, enable, k + 1);
        assert(types.take(k + 1).drop_last() =~= types.take(k));
        lemma_edge_sum_positive(types.take(k), enable);
    }
}

/// The edge byte is never negative.
proof fn lemma_edge_sum_positive(types: Seq<KeyEventType>, enable: bool)
    ensures
        0 <= edge_sum(types, enable),
    decreases types.len(),
{
    if types.len() > 0 {
        lemma_edge_sum_positive(types.drop_last(), enable);
    }
}

} // verus!
