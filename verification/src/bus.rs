//! Sharing one transport among several peripherals.
//!
//! A [`BusMutex`] owns the transport; each peripheral holds a [`Bus`], a
//! handle on the mutex. Whatever a handle does, it does inside one critical
//! section: a single write or delay, or one whole register operation with
//! its write, its delay and its read. The mutex lets one section run at a
//! time, so the phases of a register operation are not torn apart by another
//! peripheral's traffic. No section spans two register operations.
//!
//! The exclusion is not reentrant. What runs inside a critical section must
//! not lock the same mutex again.
//!
//! A peripheral that has the transport to itself needs none of this: it is
//! given the transport itself, and nothing is locked.
use vstd::prelude::*;
use crate::driver::{fault_of, BusEvent, Driver, DriverExt, Reg};

verus! {

/// Mutual exclusion around a transport.
pub trait BusMutex: Sized {
    /// The actual bus that is wrapped inside this mutex.
    type Bus;

    /// Create a new mutex of this type.
    fn create(v: Self::Bus) -> Self;

    /// Lock the mutex and give a closure access to the bus inside. The
    /// closure runs exactly once, on the bus, and what it returns is handed
    /// on; the mutex is free again when `lock` returns.
    ///
    /// The closure must not lock this mutex again.
    fn lock<R, F: FnOnce(&mut Self::Bus) -> R>(&self, f: F) -> (r: R)
        requires
            forall|bus: &mut Self::Bus| #[trigger] call_requires(f, (bus,)),
        ensures
            exists|bus: &mut Self::Bus| #[trigger] call_ensures(f, (bus,), r),
    ;
}

/// `after` is `before` with `event` added.
pub open spec fn added<E>(
    before: Seq<BusEvent<E>>,
    after: Seq<BusEvent<E>>,
    event: BusEvent<E>,
) -> bool {
    after == before.push(event)
}

/// A peripheral's handle on a shared transport.
pub struct Bus<'a, M: BusMutex> where M::Bus: DriverExt {
    mutex: &'a M,
    sections: Ghost<Seq<Seq<BusEvent<<M::Bus as Driver>::Error>>>>,
}

impl<'a, M: BusMutex> Bus<'a, M> where M::Bus: DriverExt {
    /// A handle on `mutex` that has done nothing yet.
    pub fn new(mutex: &'a M) -> (bus: Self)
        ensures
            bus.shared() == mutex,
            bus.sections() == Seq::<Seq<BusEvent<<M::Bus as Driver>::Error>>>::empty(),
            bus.transcript() == Seq::<BusEvent<<M::Bus as Driver>::Error>>::empty(),
    {
        Bus { mutex, sections: Ghost(Seq::empty()) }
    }

    /// The mutex this handle locks.
    pub closed spec fn shared(&self) -> &'a M {
        self.mutex
    }

    /// What this handle did, critical section by critical section.
    pub closed spec fn sections(&self) -> Seq<Seq<BusEvent<<M::Bus as Driver>::Error>>> {
        self.sections@
    }

    /// The transcript of a handle is its critical sections laid end to end.
    pub proof fn lemma_transcript_is_sections(&self)
        ensures
            self.transcript() == self.sections().flatten(),
    {
    }
}

impl<'a, M: BusMutex> Driver for Bus<'a, M> where M::Bus: DriverExt {
    type Error = <M::Bus as Driver>::Error;

    closed spec fn transcript(&self) -> Seq<BusEvent<<M::Bus as Driver>::Error>> {
        self.sections@.flatten()
    }

    /// One write phase, in a critical section of its own: the transport in
    /// the mutex is handed the write, and its answer is handed back.
    fn write(&mut self, addr: u8, bytes: &[u8]) -> (r: Result<(), Self::Error>)
        ensures
            final(self).shared() == old(self).shared(),
            final(self).sections() == old(self).sections().push(
                seq![BusEvent::Write { addr, bytes: bytes@, fault: fault_of(r) }],
            ),
            exists|inner: &mut M::Bus| #[trigger]
                added(
                    inner.transcript(),
                    final(inner).transcript(),
                    BusEvent::Write { addr, bytes: bytes@, fault: fault_of(r) },
                ),
    {
        let f = |bus: &mut M::Bus| -> (r: Result<(), <M::Bus as Driver>::Error>)
            ensures
                added(
                    old(bus).transcript(),
                    final(bus).transcript(),
                    BusEvent::Write { addr, bytes: bytes@, fault: fault_of(r) },
                ),
            { bus.write(addr, bytes) };
        let r = self.mutex.lock(f);
        proof {
            let inner = choose|bus: &mut M::Bus| #[trigger] call_ensures(f, (bus,), r);
            assert(added(
                inner.transcript(),
                final(inner).transcript(),
                BusEvent::Write { addr, bytes: bytes@, fault: fault_of(r) },
            ));
            let section = seq![BusEvent::Write { addr, bytes: bytes@, fault: fault_of(r) }];
            self.sections@.lemma_flatten_push(section);
            self.sections@ = self.sections@.push(section);
            assert(old(self).transcript() + section =~= old(self).transcript().push(section[0]));
        }
        r
    }

    /// One read phase, in a critical section of its own: the transport in
    /// the mutex is asked for the bytes, and its answer is handed back.
    fn read<const N: usize>(&mut self, addr: u8) -> (r: Result<[u8; N], Self::Error>)
        ensures
            final(self).shared() == old(self).shared(),
            final(self).sections() == old(self).sections().push(
                seq![BusEvent::Read { addr, len: N as nat, data: crate::driver::data_of(r) }],
            ),
            exists|inner: &mut M::Bus| #[trigger]
                added(
                    inner.transcript(),
                    final(inner).transcript(),
                    BusEvent::Read { addr, len: N as nat, data: crate::driver::data_of(r) },
                ),
    {
        let f = |bus: &mut M::Bus| -> (r: Result<[u8; N], <M::Bus as Driver>::Error>)
            ensures
                added(
                    old(bus).transcript(),
                    final(bus).transcript(),
                    BusEvent::Read { addr, len: N as nat, data: crate::driver::data_of(r) },
                ),
            { bus.read::<N>(addr) };
        let r = self.mutex.lock(f);
        proof {
            let inner = choose|bus: &mut M::Bus| #[trigger] call_ensures(f, (bus,), r);
            assert(added(
                inner.transcript(),
                final(inner).transcript(),
                BusEvent::Read { addr, len: N as nat, data: crate::driver::data_of(r) },
            ));
            let section = seq![
                BusEvent::Read { addr, len: N as nat, data: crate::driver::data_of(r) },
            ];
            self.sections@.lemma_flatten_push(section);
            self.sections@ = self.sections@.push(section);
            assert(old(self).transcript() + section =~= old(self).transcript().push(section[0]));
        }
        r
    }

    /// One delay, in a critical section of its own, so that no other handle
    /// uses the transport while this one waits.
    fn delay_us(&mut self, us: u32)
        ensures
            final(self).shared() == old(self).shared(),
            final(self).sections() == old(self).sections().push(
                seq![BusEvent::Delay { us: us as nat }],
            ),
            exists|inner: &mut M::Bus| #[trigger]
                added(
                    inner.transcript(),
                    final(inner).transcript(),
                    BusEvent::Delay { us: us as nat },
                ),
    {
        let f = |bus: &mut M::Bus|
            ensures
                added(
                    old(bus).transcript(),
                    final(bus).transcript(),
                    BusEvent::Delay { us: us as nat },
                ),
            { bus.delay_us(us) };
        self.mutex.lock(f);
        proof {
            let inner = choose|bus: &mut M::Bus| #[trigger] call_ensures(f, (bus,), ());
            assert(added(
                inner.transcript(),
                final(inner).transcript(),
                BusEvent::<Self::Error>::Delay { us: us as nat },
            ));
            let section = seq![BusEvent::<Self::Error>::Delay { us: us as nat }];
            self.sections@.lemma_flatten_push(section);
            self.sections@ = self.sections@.push(section);
            assert(old(self).transcript() + section =~= old(self).transcript().push(section[0]));
        }
    }
}

/// The events of a register write that ended as `r` says.
pub open spec fn write_section<E>(addr: u8, reg: Reg, payload: Seq<u8>, r: Result<(), E>) -> Seq<
    BusEvent<E>,
> {
    match r {
        Ok(_) => crate::driver::write_ok(addr, reg, payload, crate::driver::DELAY_TIME as nat),
        Err(e) => crate::driver::write_refused(addr, reg, payload, e),
    }
}

impl<'a, M: BusMutex> DriverExt for Bus<'a, M> where M::Bus: DriverExt {
    /// A register write in one critical section: no other handle can get
    /// between the write phase and the settle delay.
    fn register_write(&mut self, addr: u8, reg: &Reg, bytes: &[u8]) -> (r: Result<
        (),
        Self::Error,
    >)
        ensures
            final(self).shared() == old(self).shared(),
            final(self).sections() == old(self).sections().push(
                write_section(addr, *reg, bytes@, r),
            ),
            exists|inner: &mut M::Bus| #[trigger]
                crate::driver::wrote(
                    inner.transcript(),
                    final(inner).transcript(),
                    addr,
                    *reg,
                    bytes@,
                    crate::driver::DELAY_TIME as nat,
                    r,
                ),
    {
        let f = |bus: &mut M::Bus| -> (r: Result<(), <M::Bus as Driver>::Error>)
            ensures
                crate::driver::wrote(
                    old(bus).transcript(),
                    final(bus).transcript(),
                    addr,
                    *reg,
                    bytes@,
                    crate::driver::DELAY_TIME as nat,
                    r,
                ),
            { bus.register_write(addr, reg, bytes) };
        let r = self.mutex.lock(f);
        proof {
            let inner = choose|bus: &mut M::Bus| #[trigger] call_ensures(f, (bus,), r);
            assert(crate::driver::wrote(
                inner.transcript(),
                final(inner).transcript(),
                addr,
                *reg,
                bytes@,
                crate::driver::DELAY_TIME as nat,
                r,
            ));
            let section = write_section(addr, *reg, bytes@, r);
            self.sections@.lemma_flatten_push(section);
            self.sections@ = self.sections@.push(section);
        }
        r
    }

    /// A register read in one critical section: no other handle can get
    /// between the address phase, the settle delay and the read phase.
    fn register_read_with_delay<const N: usize>(
        &mut self,
        addr: u8,
        reg: &Reg,
        settle_us: u32,
    ) -> (r: Result<[u8; N], Self::Error>)
        ensures
            final(self).shared() == old(self).shared(),
            final(self).sections().len() == old(self).sections().len() + 1,
            final(self).sections().drop_last() == old(self).sections(),
            crate::driver::did_read(
                Seq::empty(),
                final(self).sections().last(),
                addr,
                *reg,
                settle_us as nat,
                N as nat,
                crate::driver::data_of(r),
            ),
            exists|inner: &mut M::Bus|
                {
                    &&& #[trigger] crate::driver::did_read(
                        inner.transcript(),
                        final(inner).transcript(),
                        addr,
                        *reg,
                        settle_us as nat,
                        N as nat,
                        crate::driver::data_of(r),
                    )
                    &&& final(inner).transcript() == inner.transcript()
                        + final(self).sections().last()
                },
    {
        let f = |bus: &mut M::Bus| -> (out: (
            Result<[u8; N], <M::Bus as Driver>::Error>,
            Ghost<Seq<BusEvent<<M::Bus as Driver>::Error>>>,
        ))
            ensures
                final(bus).transcript() == old(bus).transcript() + out.1@,
                crate::driver::did_read(
                    old(bus).transcript(),
                    final(bus).transcript(),
                    addr,
                    *reg,
                    settle_us as nat,
                    N as nat,
                    crate::driver::data_of(out.0),
                ),
                crate::driver::did_read(
                    Seq::empty(),
                    out.1@,
                    addr,
                    *reg,
                    settle_us as nat,
                    N as nat,
                    crate::driver::data_of(out.0),
                ),
            {
                let ghost before = bus.transcript();
                let r = bus.register_read_with_delay::<N>(addr, reg, settle_us);
                let ghost grown = bus.transcript().skip(before.len() as int);
                proof {
                    assert(forall|tail: Seq<BusEvent<<M::Bus as Driver>::Error>>|
                        bus.transcript() == before + tail ==> #[trigger] (Seq::<
                            BusEvent<<M::Bus as Driver>::Error>,
                        >::empty() + tail) =~= grown);
                    assert(bus.transcript() =~= before + grown);
                }
                (r, Ghost(grown))
            };
        let (r, Ghost(section)) = self.mutex.lock(f);
        proof {
            let inner = choose|bus: &mut M::Bus| #[trigger]
                call_ensures(f, (bus,), (r, Ghost(section)));
            assert(crate::driver::did_read(
                inner.transcript(),
                final(inner).transcript(),
                addr,
                *reg,
                settle_us as nat,
                N as nat,
                crate::driver::data_of(r),
            ));
            assert(forall|tail: Seq<BusEvent<Self::Error>>|
                section == Seq::<BusEvent<Self::Error>>::empty() + tail ==> #[trigger] (old(
                    self,
                ).transcript() + tail) =~= old(self).transcript() + section);
            self.sections@.lemma_flatten_push(section);
            assert(self.sections@.push(section).drop_last() =~= self.sections@);
            self.sections@ = self.sections@.push(section);
        }
        r
    }
}

} // verus!
