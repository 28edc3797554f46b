//! The transport and the register transaction engine.
//!
//! A peripheral is reached through a [`Driver`]: something that can write
//! bytes to a 7-bit address, read bytes from it, and pause. What a driver has
//! done is recorded in its transcript, a ghost sequence of [`BusEvent`]s, and
//! every contract of this crate says what an operation adds to it.
use vstd::prelude::*;
use vstd::slice::slice_subrange;

verus! {

/// A register address: the module byte, then the function byte.
pub type Reg = [u8; 2];

/// Microseconds the chip needs after a register address or a payload was
/// written, before the next bus operation is valid.
pub const DELAY_TIME: u32 = 125;

/// The largest payload of one register write. With the two address bytes in
/// front it fills the frame buffer.
pub const MAX_PAYLOAD: usize = 32;

/// Size of the buffer in which a register address and its payload are joined.
pub const FRAME_CAPACITY: usize = 34;

/// One step taken on the transport, with how it ended.
pub enum BusEvent<E> {
    /// `bytes` were written to `addr` in one write phase; `fault` is the
    /// error the transport reported, if any.
    Write { addr: u8, bytes: Seq<u8>, fault: Option<E> },
    /// A read phase of `len` bytes from `addr`, with the bytes that came or
    /// the error.
    Read { addr: u8, len: nat, data: Result<Seq<u8>, E> },
    /// The caller was blocked for `us` microseconds.
    Delay { us: nat },
}

/// The error in a result, if it holds one.
pub open spec fn fault_of<T, E>(r: Result<T, E>) -> Option<E> {
    match r {
        Ok(_) => None,
        Err(e) => Some(e),
    }
}

/// What a read phase delivered: the bytes of the array, or the error.
pub open spec fn data_of<E, const N: usize>(r: Result<[u8; N], E>) -> Result<Seq<u8>, E> {
    match r {
        Ok(b) => Ok(b@),
        Err(e) => Err(e),
    }
}

/// The bytes of one write phase: register address, then payload, contiguous.
pub open spec fn frame(reg: Reg, payload: Seq<u8>) -> Seq<u8> {
    seq![reg[0], reg[1]] + payload
}

/// A register write that went through: one write phase, then the settle
/// delay.
pub open spec fn write_ok<E>(addr: u8, reg: Reg, payload: Seq<u8>, settle_us: nat) -> Seq<
    BusEvent<E>,
> {
    seq![
        BusEvent::Write { addr, bytes: frame(reg, payload), fault: None },
        BusEvent::Delay { us: settle_us },
    ]
}

/// A register write that the transport refused: the write phase alone, no
/// delay after it.
pub open spec fn write_refused<E>(addr: u8, reg: Reg, payload: Seq<u8>, e: E) -> Seq<BusEvent<E>> {
    seq![BusEvent::Write { addr, bytes: frame(reg, payload), fault: Some(e) }]
}

/// A register read that went through: the address is written, the chip is
/// given time to settle, and only then `data` is read.
pub open spec fn read_ok<E>(addr: u8, reg: Reg, settle_us: nat, data: Seq<u8>) -> Seq<BusEvent<E>> {
    seq![
        BusEvent::Write { addr, bytes: frame(reg, Seq::empty()), fault: None },
        BusEvent::Delay { us: settle_us },
        BusEvent::Read { addr, len: data.len(), data: Ok(data) },
    ]
}

/// A register read whose address phase was refused: nothing follows it.
pub open spec fn read_refused<E>(addr: u8, reg: Reg, e: E) -> Seq<BusEvent<E>> {
    seq![BusEvent::Write { addr, bytes: frame(reg, Seq::empty()), fault: Some(e) }]
}

/// A register read whose read phase failed after address and delay.
pub open spec fn read_lost<E>(addr: u8, reg: Reg, settle_us: nat, len: nat, e: E) -> Seq<
    BusEvent<E>,
> {
    seq![
        BusEvent::Write { addr, bytes: frame(reg, Seq::empty()), fault: None },
        BusEvent::Delay { us: settle_us },
        BusEvent::Read { addr, len, data: Err(e) },
    ]
}

/// `after` is `before` followed by a register write that ended as `r` says.
pub open spec fn wrote<E>(
    before: Seq<BusEvent<E>>,
    after: Seq<BusEvent<E>>,
    addr: u8,
    reg: Reg,
    payload: Seq<u8>,
    settle_us: nat,
    r: Result<(), E>,
) -> bool {
    match r {
        Ok(_) => after == before + write_ok(addr, reg, payload, settle_us),
        Err(e) => after == before + write_refused(addr, reg, payload, e),
    }
}

/// `after` is `before` followed by a register read that failed with `e`, in
/// its address phase or in its read phase.
pub open spec fn read_failed<E>(
    before: Seq<BusEvent<E>>,
    after: Seq<BusEvent<E>>,
    addr: u8,
    reg: Reg,
    settle_us: nat,
    len: nat,
    e: E,
) -> bool {
    ||| after == before + read_refused(addr, reg, e)
    ||| after == before + read_lost(addr, reg, settle_us, len, e)
}

/// `after` is `before` followed by a register read of `len` bytes that ended
/// as `r` says.
pub open spec fn did_read<E>(
    before: Seq<BusEvent<E>>,
    after: Seq<BusEvent<E>>,
    addr: u8,
    reg: Reg,
    settle_us: nat,
    len: nat,
    r: Result<Seq<u8>, E>,
) -> bool {
    match r {
        Ok(data) => data.len() == len && after == before + read_ok(addr, reg, settle_us, data),
        Err(e) => read_failed(before, after, addr, reg, settle_us, len, e),
    }
}

/// One step of a sequence that a capability sends: a register write with the
/// default settle delay, or a pause.
pub enum Step {
    /// `payload` is written to register `reg`.
    Write { reg: Reg, payload: Seq<u8> },
    /// The caller is blocked for `us` microseconds.
    Pause { us: nat },
}

/// The events of one step that was carried out.
pub open spec fn step_ok<E>(addr: u8, step: Step) -> Seq<BusEvent<E>> {
    match step {
        Step::Write { reg, payload } => write_ok(addr, reg, payload, DELAY_TIME as nat),
        Step::Pause { us } => seq![BusEvent::Delay { us }],
    }
}

/// The events of a sequence of steps, all carried out, in their order.
pub open spec fn run_ok<E>(addr: u8, plan: Seq<Step>) -> Seq<BusEvent<E>>
    decreases plan.len(),
{
    if plan.len() == 0 {
        Seq::empty()
    } else {
        run_ok::<E>(addr, plan.drop_last()) + step_ok::<E>(addr, plan.last())
    }
}

/// The events of a sequence whose first `k` steps were carried out and whose
/// step `k`, a write, the transport refused with `e`.
pub open spec fn run_stopped<E>(addr: u8, plan: Seq<Step>, k: int, e: E) -> Seq<BusEvent<E>> {
    run_ok::<E>(addr, plan.take(k)) + (match plan[k] {
        Step::Write { reg, payload } => write_refused(addr, reg, payload, e),
        Step::Pause { us } => Seq::empty(),
    })
}

/// `after` is `before` followed by the steps of `plan`, in their order, up
/// to the end if `r` is `Ok`, else up to the write that was refused with the
/// error in `r`. Nothing is sent after a refusal.
pub open spec fn ran<E>(
    before: Seq<BusEvent<E>>,
    after: Seq<BusEvent<E>>,
    addr: u8,
    plan: Seq<Step>,
    r: Result<(), E>,
) -> bool {
    match r {
        Ok(_) => after == before + run_ok::<E>(addr, plan),
        Err(e) => exists|k: int|
            0 <= k < plan.len() && plan[k] is Write && after == before + #[trigger] run_stopped(
                addr,
                plan,
                k,
                e,
            ),
    }
}

/// Carrying out one more step appends that step's events.
pub proof fn lemma_run_ok_push<E>(addr: u8, plan: Seq<Step>, step: Step)
    ensures
        run_ok::<E>(addr, plan.push(step)) == run_ok::<E>(addr, plan) + step_ok::<E>(addr, step),
{
    assert(plan.push(step).drop_last() =~= plan);
}

/// Nothing has happened before the first step.
pub proof fn lemma_run_ok_start<E>(before: Seq<BusEvent<E>>, addr: u8, plan: Seq<Step>)
    ensures
        before == before + run_ok::<E>(addr, plan.take(0)),
{
    assert(before =~= before + run_ok::<E>(addr, plan.take(0)));
}

/// After the last step the whole plan has been carried out.
pub proof fn lemma_run_ok_end<E>(addr: u8, plan: Seq<Step>)
    ensures
        run_ok::<E>(addr, plan.take(plan.len() as int)) == run_ok::<E>(addr, plan),
{
    assert(plan.take(plan.len() as int) =~= plan);
}

/// What one more register write does to a run that has reached step `k`.
pub proof fn lemma_run_write<E>(
    before: Seq<BusEvent<E>>,
    mid: Seq<BusEvent<E>>,
    after: Seq<BusEvent<E>>,
    addr: u8,
    plan: Seq<Step>,
    k: int,
    r: Result<(), E>,
)
    requires
        0 <= k < plan.len(),
        mid == before + run_ok::<E>(addr, plan.take(k)),
        plan[k] matches Step::Write { reg, payload } && wrote(
            mid,
            after,
            addr,
            reg,
            payload,
            DELAY_TIME as nat,
            r,
        ),
    ensures
        match r {
            Ok(_) => after == before + run_ok::<E>(addr, plan.take(k + 1)),
            Err(e) => after == before + run_stopped(addr, plan, k, e),
        },
{
    assert(plan.take(k + 1) =~= plan.take(k).push(plan[k]));
    lemma_run_ok_push::<E>(addr, plan.take(k), plan[k]);
    match r {
        Ok(_) => {
            assert(after =~= before + run_ok::<E>(addr, plan.take(k + 1)));
        },
        Err(e) => {
            assert(after =~= before + run_stopped(addr, plan, k, e));
        },
    }
}

/// What a pause does to a run that has reached step `k`.
pub proof fn lemma_run_pause<E>(
    before: Seq<BusEvent<E>>,
    mid: Seq<BusEvent<E>>,
    after: Seq<BusEvent<E>>,
    addr: u8,
    plan: Seq<Step>,
    k: int,
)
    requires
        0 <= k < plan.len(),
        mid == before + run_ok::<E>(addr, plan.take(k)),
        plan[k] matches Step::Pause { us } && after == mid.push(BusEvent::Delay { us }),
    ensures
        after == before + run_ok::<E>(addr, plan.take(k + 1)),
{
    assert(plan.take(k + 1) =~= plan.take(k).push(plan[k]));
    lemma_run_ok_push::<E>(addr, plan.take(k), plan[k]);
    assert(after =~= before + run_ok::<E>(addr, plan.take(k + 1)));
}

/// The events of two sequences carried out one after the other are the
/// events of the first, then the events of the second.
pub proof fn lemma_run_ok_join<E>(addr: u8, a: Seq<Step>, b: Seq<Step>)
    ensures
        run_ok::<E>(addr, a + b) == run_ok::<E>(addr, a) + run_ok::<E>(addr, b),
    decreases b.len(),
{
    if b.len() == 0 {
        assert(a + b =~= a);
        assert(run_ok::<E>(addr, a) + run_ok::<E>(addr, b) =~= run_ok::<E>(addr, a));
    } else {
        lemma_run_ok_join::<E>(addr, a, b.drop_last());
        assert((a + b).drop_last() =~= a + b.drop_last());
        assert((a + b).last() == b.last());
        assert(run_ok::<E>(addr, a + b) =~= run_ok::<E>(addr, a) + run_ok::<E>(addr, b));
    }
}

/// A sequence that was carried out, followed by a second one that ended as
/// `r` says, is the joined sequence ending as `r` says.
pub proof fn lemma_ran_then<E>(
    before: Seq<BusEvent<E>>,
    mid: Seq<BusEvent<E>>,
    after: Seq<BusEvent<E>>,
    addr: u8,
    a: Seq<Step>,
    b: Seq<Step>,
    r: Result<(), E>,
)
    requires
        mid == before + run_ok::<E>(addr, a),
        ran(mid, after, addr, b, r),
    ensures
        ran(before, after, addr, a + b, r),
{
    lemma_run_ok_join::<E>(addr, a, b);
    match r {
        Ok(_) => {
            assert(after =~= before + run_ok::<E>(addr, a + b));
        },
        Err(e) => {
            let k = choose|k: int|
                0 <= k < b.len() && b[k] is Write && after == mid + #[trigger] run_stopped(
                    addr,
                    b,
                    k,
                    e,
                );
            let at = a.len() + k;
            assert((a + b).take(at) =~= a + b.take(k));
            lemma_run_ok_join::<E>(addr, a, b.take(k));
            assert((a + b)[at] == b[k]);
            assert(after =~= before + run_stopped(addr, a + b, at, e));
        },
    }
}

/// A sequence that stopped at a refused write is also the beginning of any
/// longer sequence that starts with it, stopped at the same write.
pub proof fn lemma_ran_stopped_early<E>(
    before: Seq<BusEvent<E>>,
    after: Seq<BusEvent<E>>,
    addr: u8,
    a: Seq<Step>,
    b: Seq<Step>,
    e: E,
)
    requires
        ran(before, after, addr, a, Err(e)),
    ensures
        ran(before, after, addr, a + b, Err(e)),
{
    let k = choose|k: int|
        0 <= k < a.len() && a[k] is Write && after == before + #[trigger] run_stopped(
            addr,
            a,
            k,
            e,
        );
    assert((a + b).take(k) =~= a.take(k));
    assert((a + b)[k] == a[k]);
    assert(after == before + run_stopped(addr, a + b, k, e));
}

/// What an I2C master was asked to transfer, oldest first, each transfer
/// with how it ended.
pub type Transfers<E> = Seq<BusEvent<E>>;

/// The pauses a delay source was asked for, oldest first, in microseconds.
pub type Pauses = Seq<nat>;

/// What a read into a buffer delivered: the bytes the buffer holds after it,
/// or the error.
pub open spec fn read_data<E>(r: Result<(), E>, bytes: Seq<u8>) -> Result<Seq<u8>, E> {
    match r {
        Ok(_) => Ok(bytes),
        Err(e) => Err(e),
    }
}

/// An I2C master: the first of the two capabilities the transport is made
/// of. No outcome is promised of an implementation, only that what it is
/// asked to transfer enters its record.
pub trait I2cMaster {
    /// The transport's own error.
    type Error;

    /// The transfers this master was asked for so far.
    spec fn transfers(&self) -> Transfers<Self::Error>;

    /// Writes `bytes` to the device at `address` in one write phase.
    fn send(&mut self, address: u8, bytes: &[u8]) -> (r: Result<(), Self::Error>)
        ensures
            final(self).transfers() == old(self).transfers().push(
                BusEvent::Write { addr: address, bytes: bytes@, fault: fault_of(r) },
            ),
    ;

    /// Reads from the device at `address` until `buffer` is full.
    fn receive(&mut self, address: u8, buffer: &mut [u8]) -> (r: Result<(), Self::Error>)
        ensures
            final(buffer)@.len() == old(buffer)@.len(),
            final(self).transfers() == old(self).transfers().push(
                BusEvent::Read {
                    addr: address,
                    len: old(buffer)@.len(),
                    data: read_data(r, final(buffer)@),
                },
            ),
    ;
}

/// A blocking delay source: the second capability of the transport.
pub trait DelaySource {
    /// The pauses this source was asked for so far.
    spec fn pauses(&self) -> Pauses;

    /// Blocks the caller for at least `us` microseconds.
    fn pause_us(&mut self, us: u32)
        ensures
            final(self).pauses() == old(self).pauses().push(us as nat),
    ;
}

/// A transport with a record of what it did.
pub trait Driver {
    /// The transport's own error.
    type Error;

    /// Everything this driver has done so far, oldest first.
    spec fn transcript(&self) -> Seq<BusEvent<Self::Error>>;

    /// One write phase to `addr`.
    fn write(&mut self, addr: u8, bytes: &[u8]) -> (r: Result<(), Self::Error>)
        ensures
            final(self).transcript() == old(self).transcript().push(
                BusEvent::Write { addr, bytes: bytes@, fault: fault_of(r) },
            ),
    ;

    /// One read phase of `N` bytes from `addr`.
    fn read<const N: usize>(&mut self, addr: u8) -> (r: Result<[u8; N], Self::Error>)
        ensures
            final(self).transcript() == old(self).transcript().push(
                BusEvent::Read { addr, len: N as nat, data: data_of(r) },
            ),
    ;

    /// Blocks for `us` microseconds.
    fn delay_us(&mut self, us: u32)
        ensures
            final(self).transcript() == old(self).transcript().push(
                BusEvent::Delay { us: us as nat },
            ),
    ;
}

/// An I2C master and a delay source, owned together as one transport.
pub struct SeesawDriver<I2C: I2cMaster, DELAY> {
    delay: DELAY,
    i2c: I2C,
    log: Ghost<Seq<BusEvent<I2C::Error>>>,
}

impl<I2C: I2cMaster, DELAY: DelaySource> SeesawDriver<I2C, DELAY> {
    /// Joins a delay source and an I2C master into a transport that has done
    /// nothing yet. Neither of the two is asked for anything.
    pub fn new(delay: DELAY, i2c: I2C) -> (driver: Self)
        ensures
            driver.master() == i2c,
            driver.timer() == delay,
            driver.transcript() == Seq::<BusEvent<I2C::Error>>::empty(),
    {
        SeesawDriver { delay, i2c, log: Ghost(Seq::empty()) }
    }

    /// The I2C master inside, as it stands.
    pub closed spec fn master(&self) -> I2C {
        self.i2c
    }

    /// The delay source inside, as it stands.
    pub closed spec fn timer(&self) -> DELAY {
        self.delay
    }
}

impl<I2C: I2cMaster, DELAY: DelaySource> Driver for SeesawDriver<I2C, DELAY> {
    type Error = I2C::Error;

    closed spec fn transcript(&self) -> Seq<BusEvent<I2C::Error>> {
        self.log@
    }

    /// Hands the write to the I2C master, unchanged, and its answer back.
    fn write(&mut self, addr: u8, bytes: &[u8]) -> (r: Result<(), I2C::Error>)
        ensures
            final(self).master().transfers() == old(self).master().transfers().push(
                BusEvent::Write { addr, bytes: bytes@, fault: fault_of(r) },
            ),
            final(self).timer() == old(self).timer(),
    {
        let r = self.i2c.send(addr, bytes);
        proof {
            self.log@ = self.log@.push(
                BusEvent::Write { addr, bytes: bytes@, fault: fault_of(r) },
            );
        }
        r
    }

    /// Has the I2C master fill a buffer of `N` bytes, and hands the buffer
    /// back if the master reports no error.
    fn read<const N: usize>(&mut self, addr: u8) -> (r: Result<[u8; N], I2C::Error>)
        ensures
            final(self).master().transfers() == old(self).master().transfers().push(
                BusEvent::Read { addr, len: N as nat, data: data_of(r) },
            ),
            final(self).timer() == old(self).timer(),
    {
        let mut buffer = [0u8; N];
        let r = match self.i2c.receive(addr, &mut buffer) {
            Ok(()) => Ok(buffer),
            Err(e) => Err(e),
        };
        proof {
            self.log@ = self.log@.push(
                BusEvent::Read { addr, len: N as nat, data: data_of(r) },
            );
        }
        r
    }

    /// Hands the pause to the delay source, unchanged.
    fn delay_us(&mut self, us: u32)
        ensures
            final(self).timer().pauses() == old(self).timer().pauses().push(us as nat),
            final(self).master() == old(self).master(),
    {
        self.delay.pause_us(us);
        proof {
            self.log@ = self.log@.push(BusEvent::Delay { us: us as nat });
        }
    }
}

/// The driver is itself an I2C master: what it is asked to transfer, it asks
/// of the master inside, and it hands back what the master answered.
impl<I2C: I2cMaster, DELAY: DelaySource> I2cMaster for SeesawDriver<I2C, DELAY> {
    type Error = I2C::Error;

    closed spec fn transfers(&self) -> Transfers<I2C::Error> {
        self.i2c.transfers()
    }

    fn send(&mut self, address: u8, bytes: &[u8]) -> (r: Result<(), I2C::Error>)
        ensures
            final(self).timer() == old(self).timer(),
            final(self).transcript() == old(self).transcript().push(
                BusEvent::Write { addr: address, bytes: bytes@, fault: fault_of(r) },
            ),
    {
        let r = self.i2c.send(address, bytes);
        proof {
            self.log@ = self.log@.push(
                BusEvent::Write { addr: address, bytes: bytes@, fault: fault_of(r) },
            );
        }
        r
    }

    fn receive(&mut self, address: u8, buffer: &mut [u8]) -> (r: Result<(), I2C::Error>)
        ensures
            final(self).timer() == old(self).timer(),
            final(self).transcript() == old(self).transcript().push(
                BusEvent::Read {
                    addr: address,
                    len: old(buffer)@.len(),
                    data: read_data(r, final(buffer)@),
                },
            ),
    {
        let ghost len = buffer@.len();
        let r = self.i2c.receive(address, buffer);
        proof {
            self.log@ = self.log@.push(
                BusEvent::Read { addr: address, len, data: read_data(r, buffer@) },
            );
        }
        r
    }
}

/// The driver is itself a delay source: a pause it is asked for, it asks of
/// the delay source inside.
impl<I2C: I2cMaster, DELAY: DelaySource> DelaySource for SeesawDriver<I2C, DELAY> {
    closed spec fn pauses(&self) -> Pauses {
        self.delay.pauses()
    }

    fn pause_us(&mut self, us: u32)
        ensures
            final(self).master() == old(self).master(),
            final(self).transcript() == old(self).transcript().push(
                BusEvent::Delay { us: us as nat },
            ),
    {
        self.delay.pause_us(us);
        proof {
            self.log@ = self.log@.push(BusEvent::Delay { us: us as nat });
        }
    }
}

/// The register transaction engine: what every capability is built from.
///
/// A register operation is one or two bus phases with the settle delay the
/// chip asks for. The typed accessors add nothing but the big-endian
/// encoding.
pub trait DriverExt: Driver {
    /// Writes `bytes` to register `reg` of the device at `addr`: address and
    /// payload leave as one contiguous write phase, and the settle delay
    /// follows if the transport took them.
    fn register_write(&mut self, addr: u8, reg: &Reg, bytes: &[u8]) -> (r: Result<
        (),
        Self::Error,
    >)
        requires
            bytes@.len() <= MAX_PAYLOAD,
        ensures
            wrote(
                old(self).transcript(),
                final(self).transcript(),
                addr,
                *reg,
                bytes@,
                DELAY_TIME as nat,
                r,
            ),
    {
        let mut buf = [0u8; FRAME_CAPACITY];
        buf[0] = reg[0];
        buf[1] = reg[1];
        let mut i: usize = 0;
        while i < bytes.len()
            invariant
                i <= bytes@.len() <= MAX_PAYLOAD,
                buf@[0] == reg[0],
                buf@[1] == reg[1],
                forall|j: int| 0 <= j < i ==> buf@[2 + j] == bytes@[j],
            decreases bytes@.len() - i,
        {
            buf[2 + i] = bytes[i];
            i += 1;
        }
        let out = slice_subrange(buf.as_slice(), 0, 2 + bytes.len());
        assert(out@ =~= frame(*reg, bytes@));
        match self.write(addr, out) {
            Ok(()) => {
                self.delay_us(DELAY_TIME);
                assert(self.transcript() =~= old(self).transcript() + write_ok::<Self::Error>(
                    addr,
                    *reg,
                    bytes@,
                    DELAY_TIME as nat,
                ));
                Ok(())
            },
            Err(e) => {
                assert(self.transcript() =~= old(self).transcript() + write_refused(
                    addr,
                    *reg,
                    bytes@,
                    e,
                ));
                Err(e)
            },
        }
    }

    /// Reads `N` bytes from register `reg`, waiting `settle_us` microseconds
    /// between writing the address and reading. The two phases are never
    /// merged into one bus transaction.
    fn register_read_with_delay<const N: usize>(
        &mut self,
        addr: u8,
        reg: &Reg,
        settle_us: u32,
    ) -> (r: Result<[u8; N], Self::Error>)
        ensures
            did_read(
                old(self).transcript(),
                final(self).transcript(),
                addr,
                *reg,
                settle_us as nat,
                N as nat,
                data_of(r),
            ),
    {
        let head: [u8; 2] = [reg[0], reg[1]];
        assert(head@ =~= frame(*reg, Seq::empty()));
        match self.write(addr, head.as_slice()) {
            Ok(()) => {},
            Err(e) => {
                assert(self.transcript() =~= old(self).transcript() + read_refused(addr, *reg, e));
                return Err(e);
            },
        }
        self.delay_us(settle_us);
        match self.read::<N>(addr) {
            Ok(b) => {
                assert(self.transcript() =~= old(self).transcript() + read_ok::<Self::Error>(
                    addr,
                    *reg,
                    settle_us as nat,
                    b@,
                ));
                Ok(b)
            },
            Err(e) => {
                assert(self.transcript() =~= old(self).transcript() + read_lost(
                    addr,
                    *reg,
                    settle_us as nat,
                    N as nat,
                    e,
                ));
                Err(e)
            },
        }
    }

    /// Reads `N` bytes from register `reg` with the default settle delay.
    fn register_read<const N: usize>(&mut self, addr: u8, reg: &Reg) -> (r: Result<
        [u8; N],
        Self::Error,
    >)
        ensures
            did_read(
                old(self).transcript(),
                final(self).transcript(),
                addr,
                *reg,
                DELAY_TIME as nat,
                N as nat,
                data_of(r),
            ),
    {
        self.register_read_with_delay::<N>(addr, reg, DELAY_TIME)
    }

    /// Reads register `reg` as a big-endian `u8`.
    fn read_u8(&mut self, addr: u8, reg: &Reg) -> (r: Result<u8, Self::Error>)
        ensures
            did_read(
                old(self).transcript(),
                final(self).transcript(),
                addr,
                *reg,
                DELAY_TIME as nat,
                1,
                match r {
                    Ok(v) => Ok(crate::codec::be8(v)),
                    Err(e) => Err(e),
                },
            ),
    {
        match self.register_read::<1>(addr, reg) {
            Ok(b) => {
                proof {
                    assert(b@ =~= crate::codec::be8(b[0]));
                }
                Ok(b[0])
            },
            Err(e) => Err(e),
        }
    }

    /// Reads register `reg` as a big-endian `u16`.
    fn read_u16(&mut self, addr: u8, reg: &Reg) -> (r: Result<u16, Self::Error>)
        ensures
            did_read(
                old(self).transcript(),
                final(self).transcript(),
                addr,
                *reg,
                DELAY_TIME as nat,
                2,
                match r {
                    Ok(v) => Ok(crate::codec::be16(v)),
                    Err(e) => Err(e),
                },
            ),
    {
        match self.register_read::<2>(addr, reg) {
            Ok(b) => {
                proof {
                    crate::codec::lemma_be16_unique(b@);
                }
                Ok(crate::codec::u16_from_be(b))
            },
            Err(e) => Err(e),
        }
    }

    /// Reads register `reg` as a big-endian `u32`.
    fn read_u32(&mut self, addr: u8, reg: &Reg) -> (r: Result<u32, Self::Error>)
        ensures
            did_read(
                old(self).transcript(),
                final(self).transcript(),
                addr,
                *reg,
                DELAY_TIME as nat,
                4,
                match r {
                    Ok(v) => Ok(crate::codec::be32(v)),
                    Err(e) => Err(e),
                },
            ),
    {
        match self.register_read::<4>(addr, reg) {
            Ok(b) => {
                proof {
                    crate::codec::lemma_be32_unique(b@);
                }
                Ok(crate::codec::u32_from_be(b))
            },
            Err(e) => Err(e),
        }
    }

    /// Reads register `reg` as a big-endian `u64`.
    fn read_u64(&mut self, addr: u8, reg: &Reg) -> (r: Result<u64, Self::Error>)
        ensures
            did_read(
                old(self).transcript(),
                final(self).transcript(),
                addr,
                *reg,
                DELAY_TIME as nat,
                8,
                match r {
                    Ok(v) => Ok(crate::codec::be64(v)),
                    Err(e) => Err(e),
                },
            ),
    {
        match self.register_read::<8>(addr, reg) {
            Ok(b) => {
                proof {
                    crate::codec::lemma_be64_unique(b@);
                }
                Ok(crate::codec::u64_from_be(b))
            },
            Err(e) => Err(e),
        }
    }

    /// Reads register `reg` as a big-endian `i8`.
    fn read_i8(&mut self, addr: u8, reg: &Reg) -> (r: Result<i8, Self::Error>)
        ensures
            did_read(
                old(self).transcript(),
                final(self).transcript(),
                addr,
                *reg,
                DELAY_TIME as nat,
                1,
                match r {
                    Ok(v) => Ok(crate::codec::be8(v as u8)),
                    Err(e) => Err(e),
                },
            ),
    {
        match self.register_read::<1>(addr, reg) {
            Ok(b) => {
                proof {
                    assert(b@ =~= crate::codec::be8(b[0]));
                    crate::codec::lemma_bit_pattern_kept(b@[0], 0, 0, 0);
                }
                Ok(b[0] as i8)
            },
            Err(e) => Err(e),
        }
    }

    /// Reads register `reg` as a big-endian `i16`.
    fn read_i16(&mut self, addr: u8, reg: &Reg) -> (r: Result<i16, Self::Error>)
        ensures
            did_read(
                old(self).transcript(),
                final(self).transcript(),
                addr,
                *reg,
                DELAY_TIME as nat,
                2,
                match r {
                    Ok(v) => Ok(crate::codec::be16(v as u16)),
                    Err(e) => Err(e),
                },
            ),
    {
        match self.register_read::<2>(addr, reg) {
            Ok(b) => {
                proof {
                    crate::codec::lemma_be16_unique(b@);
                    let ghost w = crate::codec::from_be16(b@);
                    crate::codec::lemma_bit_pattern_kept(0, w, 0, 0);
                }
                Ok(crate::codec::u16_from_be(b) as i16)
            },
            Err(e) => Err(e),
        }
    }

    /// Reads register `reg` as a big-endian `i32`.
    fn read_i32(&mut self, addr: u8, reg: &Reg) -> (r: Result<i32, Self::Error>)
        ensures
            did_read(
                old(self).transcript(),
                final(self).transcript(),
                addr,
                *reg,
                DELAY_TIME as nat,
                4,
                match r {
                    Ok(v) => Ok(crate::codec::be32(v as u32)),
                    Err(e) => Err(e),
                },
            ),
    {
        match self.register_read::<4>(addr, reg) {
            Ok(b) => {
                proof {
                    crate::codec::lemma_be32_unique(b@);
                    let ghost w = crate::codec::from_be32(b@);
                    crate::codec::lemma_bit_pattern_kept(0, 0, w, 0);
                }
                Ok(crate::codec::u32_from_be(b) as i32)
            },
            Err(e) => Err(e),
        }
    }

    /// Reads register `reg` as a big-endian `i64`.
    fn read_i64(&mut self, addr: u8, reg: &Reg) -> (r: Result<i64, Self::Error>)
        ensures
            did_read(
                old(self).transcript(),
                final(self).transcript(),
                addr,
                *reg,
                DELAY_TIME as nat,
                8,
                match r {
                    Ok(v) => Ok(crate::codec::be64(v as u64)),
                    Err(e) => Err(e),
                },
            ),
    {
        match self.register_read::<8>(addr, reg) {
            Ok(b) => {
                proof {
                    crate::codec::lemma_be64_unique(b@);
                    let ghost w = crate::codec::from_be64(b@);
                    crate::codec::lemma_bit_pattern_kept(0, 0, 0, w);
                }
                Ok(crate::codec::u64_from_be(b) as i64)
            },
            Err(e) => Err(e),
        }
    }

    /// Writes `value` to register `reg`, big-endian.
    fn write_u8(&mut self, addr: u8, reg: &Reg, value: u8) -> (r: Result<(), Self::Error>)
        ensures
            wrote(
                old(self).transcript(),
                final(self).transcript(),
                addr,
                *reg,
                crate::codec::be8(value),
                DELAY_TIME as nat,
                r,
            ),
    {
        let b: [u8; 1] = [value];
        assert(b@ =~= crate::codec::be8(value));
        self.register_write(addr, reg, b.as_slice())
    }

    /// Writes `value` to register `reg`, big-endian.
    fn write_u16(&mut self, addr: u8, reg: &Reg, value: u16) -> (r: Result<(), Self::Error>)
        ensures
            wrote(
                old(self).transcript(),
                final(self).transcript(),
                addr,
                *reg,
                crate::codec::be16(value),
                DELAY_TIME as nat,
                r,
            ),
    {
        let b = crate::codec::u16_to_be(value);
        proof {
            crate::codec::lemma_be16_round_trip(value);
        }
        self.register_write(addr, reg, b.as_slice())
    }

    /// Writes `value` to register `reg`, big-endian.
    fn write_u32(&mut self, addr: u8, reg: &Reg, value: u32) -> (r: Result<(), Self::Error>)
        ensures
            wrote(
                old(self).transcript(),
                final(self).transcript(),
                addr,
                *reg,
                crate::codec::be32(value),
                DELAY_TIME as nat,
                r,
            ),
    {
        let b = crate::codec::u32_to_be(value);
        proof {
            crate::codec::lemma_be32_round_trip(value);
        }
        self.register_write(addr, reg, b.as_slice())
    }

    /// Writes `value` to register `reg`, big-endian.
    fn write_u64(&mut self, addr: u8, reg: &Reg, value: u64) -> (r: Result<(), Self::Error>)
        ensures
            wrote(
                old(self).transcript(),
                final(self).transcript(),
                addr,
                *reg,
                crate::codec::be64(value),
                DELAY_TIME as nat,
                r,
            ),
    {
        let b = crate::codec::u64_to_be(value);
        proof {
            crate::codec::lemma_be64_round_trip(value);
        }
        self.register_write(addr, reg, b.as_slice())
    }

    /// Writes `value` to register `reg`, big-endian.
    fn write_i8(&mut self, addr: u8, reg: &Reg, value: i8) -> (r: Result<(), Self::Error>)
        ensures
            wrote(
                old(self).transcript(),
                final(self).transcript(),
                addr,
                *reg,
                crate::codec::be8(value as u8),
                DELAY_TIME as nat,
                r,
            ),
    {
        let b: [u8; 1] = [value as u8];
        assert(b@ =~= crate::codec::be8(value as u8));
        self.register_write(addr, reg, b.as_slice())
    }

    /// Writes `value` to register `reg`, big-endian.
    fn write_i16(&mut self, addr: u8, reg: &Reg, value: i16) -> (r: Result<(), Self::Error>)
        ensures
            wrote(
                old(self).transcript(),
                final(self).transcript(),
                addr,
                *reg,
                crate::codec::be16(value as u16),
                DELAY_TIME as nat,
                r,
            ),
    {
        let b = crate::codec::u16_to_be(value as u16);
        proof {
            crate::codec::lemma_be16_round_trip(value as u16);
        }
        self.register_write(addr, reg, b.as_slice())
    }

    /// Writes `value` to register `reg`, big-endian.
    fn write_i32(&mut self, addr: u8, reg: &Reg, value: i32) -> (r: Result<(), Self::Error>)
        ensures
            wrote(
                old(self).transcript(),
                final(self).transcript(),
                addr,
                *reg,
                crate::codec::be32(value as u32),
                DELAY_TIME as nat,
                r,
            ),
    {
        let b = crate::codec::u32_to_be(value as u32);
        proof {
            crate::codec::lemma_be32_round_trip(value as u32);
        }
        self.register_write(addr, reg, b.as_slice())
    }

    /// Writes `value` to register `reg`, big-endian.
    fn write_i64(&mut self, addr: u8, reg: &Reg, value: i64) -> (r: Result<(), Self::Error>)
        ensures
            wrote(
                old(self).transcript(),
                final(self).transcript(),
                addr,
                *reg,
                crate::codec::be64(value as u64),
                DELAY_TIME as nat,
                r,
            ),
    {
        let b = crate::codec::u64_to_be(value as u64);
        proof {
            crate::codec::lemma_be64_round_trip(value as u64);
        }
        self.register_write(addr, reg, b.as_slice())
    }

    /// Reads register `reg` as a big-endian `u16`, giving the chip
    /// `settle_us` microseconds between the two phases.
    fn read_u16_with_delay(&mut self, addr: u8, reg: &Reg, settle_us: u32) -> (r: Result<
        u16,
        Self::Error,
    >)
        ensures
            did_read(
                old(self).transcript(),
                final(self).transcript(),
                addr,
                *reg,
                settle_us as nat,
                2,
                match r {
                    Ok(v) => Ok(crate::codec::be16(v)),
                    Err(e) => Err(e),
                },
            ),
    {
        match self.register_read_with_delay::<2>(addr, reg, settle_us) {
            Ok(b) => {
                proof {
                    crate::codec::lemma_be16_unique(b@);
                }
                Ok(crate::codec::u16_from_be(b))
            },
            Err(e) => Err(e),
        }
    }
}

impl<I2C: I2cMaster, DELAY: DelaySource> DriverExt for SeesawDriver<I2C, DELAY> {

}

} // verus!
