//! Transactional SPI wrapper: a raw bus plus a chip-select pin, made into
//! prefix-aware transactions that hold chip select low for exactly one call.
use vstd::prelude::*;

use crate::{
    with_error, origin, step_event, step_result, Busy, BusEvent, Cursed, DelayUs, Error, InputPin,
    ManagedChipSelect, Operation, Origin, OutputPin, PinState, PrefixRead, PrefixWrite, Ready,
    Reset, SpiBus, Transactional,
};

verus! {

/// Levels driven on chip select during one call: low, then high again where
/// asserting succeeded
pub open spec fn cs_window(asserted: bool, released: bool) -> Seq<(PinState, bool)> {
    if asserted {
        seq![(PinState::Low, true), (PinState::High, released)]
    } else {
        seq![(PinState::Low, false)]
    }
}

/// One event on the wire of a wrapped peripheral
pub enum WireEvent {
    /// A level driven on chip select, with whether that succeeded
    ChipSelect(PinState, bool),
    /// A step on the bus
    Bus(BusEvent),
}

/// Bus steps as wire events
pub open spec fn bus_wire(steps: Seq<BusEvent>) -> Seq<WireEvent> {
    steps.map_values(|e: BusEvent| WireEvent::Bus(e))
}

/// What one call puts on the wire: chip select driven low, then, only where
/// that succeeded, the bus steps and chip select driven high again
pub open spec fn wire_window(asserted: bool, steps: Seq<BusEvent>, released: bool) -> Seq<WireEvent> {
    if asserted {
        seq![WireEvent::ChipSelect(PinState::Low, true)] + bus_wire(steps) + seq![
            WireEvent::ChipSelect(PinState::High, released),
        ]
    } else {
        seq![WireEvent::ChipSelect(PinState::Low, false)]
    }
}

/// What a call returns, given whether chip select was asserted, whether the bus
/// steps all succeeded and whether chip select was released: a bus failure takes
/// precedence over a failure to release chip select
pub open spec fn call_outcome(asserted: bool, bus_ok: bool, released: bool) -> Origin {
    if !asserted {
        Origin::Pin
    } else if !bus_ok {
        Origin::Spi
    } else if !released {
        Origin::Pin
    } else {
        Origin::Success
    }
}

/// The steps that a prefixed write leaves on the bus: the data only follows a
/// prefix that was written
pub open spec fn prefix_write_steps(prefix: Seq<u8>, data: Seq<u8>, prefix_ok: bool, data_ok: bool) -> Seq<BusEvent> {
    if prefix_ok {
        seq![BusEvent::Write { data: prefix, ok: true }, BusEvent::Write { data, ok: data_ok }]
    } else {
        seq![BusEvent::Write { data: prefix, ok: false }]
    }
}

/// The steps that a prefixed read leaves on the bus: the transfer only follows a
/// prefix that was written
pub open spec fn prefix_read_steps(
    prefix: Seq<u8>,
    sent: Seq<u8>,
    received: Seq<u8>,
    prefix_ok: bool,
    data_ok: bool,
) -> Seq<BusEvent> {
    if prefix_ok {
        seq![
            BusEvent::Write { data: prefix, ok: true },
            BusEvent::Transfer { sent, received, ok: data_ok },
        ]
    } else {
        seq![BusEvent::Write { data: prefix, ok: false }]
    }
}

/// `steps` is what executing the list `before` in order, up to and including the
/// first failing step, leaves on the bus, with `after` the list as left behind
pub open spec fn exec_trace(before: Seq<Operation>, after: Seq<Operation>, steps: Seq<BusEvent>) -> bool {
    &&& after.len() == before.len()
    &&& steps.len() <= before.len()
    &&& forall|j: int|
        0 <= j < steps.len() ==> #[trigger] steps[j] == step_event(before[j], after[j], steps[j].ok())
            && step_result(before[j], after[j])
    &&& forall|j: int| 0 <= j < steps.len() - 1 ==> #[trigger] steps[j].ok()
    &&& steps.len() < before.len() ==> steps.len() > 0 && !steps.last().ok()
    &&& forall|j: int| steps.len() <= j < before.len() ==> #[trigger] after[j] == before[j]
}

/// Whether a run of steps ended without a failing step: in every run that a
/// call makes, only the last step can fail
pub open spec fn ended_ok(steps: Seq<BusEvent>) -> bool {
    steps.len() > 0 ==> steps.last().ok()
}

/// Chip select is idle: nothing was driven on it yet, or the last level driven
/// was high, or the last attempt to drive it low failed
pub open spec fn cs_idle(driven: Seq<(PinState, bool)>) -> bool {
    driven.len() == 0 || driven.last().0 == PinState::High || driven.last() == (PinState::Low, false)
}

/// Chip select is idle between calls: a call that finds it idle leaves it idle,
/// and within the call it is driven low once, before everything else.
pub proof fn lemma_cs_idle_between_calls(before: Seq<(PinState, bool)>, asserted: bool, released: bool)
    requires
        cs_idle(before),
    ensures
        cs_idle(before + cs_window(asserted, released)),
        (before + cs_window(asserted, released))[before.len() as int].0 == PinState::Low,
        forall|j: int|
            before.len() < j < before.len() + cs_window(asserted, released).len() ==> #[trigger] (before
                + cs_window(asserted, released))[j].0 == PinState::High,
{
}

/// Wrapper around an SPI bus that manages chip select, with optional reset,
/// busy and ready pins and a delay source
pub struct Wrapper<Spi, CsPin: OutputPin, BusyPin, ReadyPin, ResetPin, Delay> {
    spi: Spi,
    cs: CsPin,
    reset: Option<ResetPin>,
    busy: Option<BusyPin>,
    ready: Option<ReadyPin>,
    delay: Delay,
    /// A failure to release chip select that came after a bus failure
    cs_fault: Option<CsPin::Error>,
    /// Every chip-select drive and bus step this wrapper made, in order
    wire: Ghost<Seq<WireEvent>>,
}

impl<Spi, CsPin: OutputPin, BusyPin, ReadyPin, ResetPin, Delay> ManagedChipSelect for Wrapper<
    Spi,
    CsPin,
    BusyPin,
    ReadyPin,
    ResetPin,
    Delay,
> {

}

impl<Spi, CsPin: OutputPin, BusyPin, ReadyPin, ResetPin, Delay> Cursed for Wrapper<
    Spi,
    CsPin,
    BusyPin,
    ReadyPin,
    ResetPin,
    Delay,
> {

}

impl<Spi, CsPin: OutputPin, BusyPin, ReadyPin, ResetPin, Delay> Wrapper<
    Spi,
    CsPin,
    BusyPin,
    ReadyPin,
    ResetPin,
    Delay,
> {
    pub closed spec fn bus(&self) -> Spi {
        self.spi
    }

    pub closed spec fn chip_select(&self) -> CsPin {
        self.cs
    }

    pub closed spec fn reset_pin(&self) -> Option<ResetPin> {
        self.reset
    }

    pub closed spec fn busy_pin(&self) -> Option<BusyPin> {
        self.busy
    }

    pub closed spec fn ready_pin(&self) -> Option<ReadyPin> {
        self.ready
    }

    pub closed spec fn delay_source(&self) -> Delay {
        self.delay
    }

    /// Every chip-select drive and bus step that the wrapper made, in the order
    /// made; steps issued through `inner_spi` are not on it
    pub closed spec fn wire(&self) -> Seq<WireEvent> {
        self.wire@
    }

    /// The failure to release chip select kept back behind a bus failure, if any
    pub closed spec fn pending_cs_fault(&self) -> Option<CsPin::Error> {
        self.cs_fault
    }

    /// Reset, busy and ready pins and the delay source are those of `other`
    pub open spec fn same_periphery(&self, other: &Self) -> bool {
        &&& self.reset_pin() == other.reset_pin()
        &&& self.busy_pin() == other.busy_pin()
        &&& self.ready_pin() == other.ready_pin()
        &&& self.delay_source() == other.delay_source()
    }

    /// Whether asserting chip select succeeded in the call that led from `earlier`
    pub open spec fn asserted_since(&self, earlier: &Self) -> bool {
        self.chip_select().driven()[earlier.chip_select().driven().len() as int].1
    }

    /// Whether releasing chip select succeeded in the call that led from `earlier`
    pub open spec fn released_since(&self, earlier: &Self) -> bool {
        self.chip_select().driven()[earlier.chip_select().driven().len() + 1int].1
    }

    /// Chip select went low once and, where that succeeded, high once after it,
    /// and nothing else was driven on it
    pub open spec fn cs_bracketed(&self, earlier: &Self) -> bool {
        self.chip_select().driven() == earlier.chip_select().driven() + cs_window(
            self.asserted_since(earlier),
            self.released_since(earlier),
        )
    }

    /// Keep back this call's chip-select release failure exactly where a bus
    /// failure hid it, else leave the kept-back failure as it was
    pub open spec fn fault_kept(&self, earlier: &Self, asserted: bool, bus_ok: bool, released: bool) -> bool {
        if asserted && !bus_ok && !released {
            self.pending_cs_fault() == Some(self.chip_select().drive_errors().last())
        } else {
            self.pending_cs_fault() == earlier.pending_cs_fault()
        }
    }

    /// Create a new wrapper with the provided chip select pin
    pub fn new(
        spi: Spi,
        cs: CsPin,
        reset: Option<ResetPin>,
        busy: Option<BusyPin>,
        ready: Option<ReadyPin>,
        delay: Delay,
    ) -> (w: Self)
        ensures
            w.bus() == spi,
            w.chip_select() == cs,
            w.reset_pin() == reset,
            w.busy_pin() == busy,
            w.ready_pin() == ready,
            w.delay_source() == delay,
            w.pending_cs_fault() is None,
            w.wire() == Seq::<WireEvent>::empty(),
    {
        Wrapper { spi, cs, reset, busy, ready, delay, cs_fault: None, wire: Ghost(Seq::empty()) }
    }

    /// Explicitly fetch the inner spi (non-CS controlling) object
    pub fn inner_spi(&mut self) -> (r: &mut Spi)
        ensures
            *r == old(self).bus(),
            final(self).bus() == *final(r),
            final(self).chip_select() == old(self).chip_select(),
            final(self).same_periphery(old(self)),
            final(self).pending_cs_fault() == old(self).pending_cs_fault(),
            final(self).wire() == old(self).wire(),
    {
        &mut self.spi
    }

    /// Check for, and clear, a failure to release chip select that a bus failure hid
    pub fn take_cs_fault(&mut self) -> (r: Option<CsPin::Error>)
        ensures
            r == old(self).pending_cs_fault(),
            final(self).pending_cs_fault() is None,
            final(self).bus() == old(self).bus(),
            final(self).chip_select() == old(self).chip_select(),
            final(self).same_periphery(old(self)),
            final(self).wire() == old(self).wire(),
    {
        self.cs_fault.take()
    }
}

impl<Spi: SpiBus, CsPin: OutputPin, BusyPin, ReadyPin, ResetPin, Delay: DelayUs> Wrapper<
    Spi,
    CsPin,
    BusyPin,
    ReadyPin,
    ResetPin,
    Delay,
> {
    /// The steps issued on the bus in the call that led from `earlier`
    pub open spec fn steps_since(&self, earlier: &Self) -> Seq<BusEvent> {
        self.bus().issued().subrange(
            earlier.bus().issued().len() as int,
            self.bus().issued().len() as int,
        )
    }

    /// The error in a result is the very value that the failing call returned:
    /// a pin error is the last one chip select returned, a bus error the last one
    /// the bus returned
    pub open spec fn errors_named<T>(&self, r: Result<T, Error<Spi::Error, CsPin::Error, Delay::Error>>) -> bool {
        &&& r matches Err(Error::Pin(p)) ==> p == self.chip_select().drive_errors().last()
        &&& r matches Err(Error::Spi(e)) ==> e == self.bus().bus_errors().last()
    }

    /// The bus history only grew
    pub open spec fn bus_extended(&self, earlier: &Self) -> bool {
        &&& earlier.bus().issued().len() <= self.bus().issued().len()
        &&& self.bus().issued() == earlier.bus().issued() + self.steps_since(earlier)
    }

    /// A call whose assertion of chip select failed left a bracketed chip select
    /// and an untouched bus
    proof fn lemma_failed_assert(&self, earlier: &Self)
        requires
            self.chip_select().driven() == earlier.chip_select().driven().push((PinState::Low, false)),
            self.bus() == earlier.bus(),
            self.wire() == earlier.wire().push(WireEvent::ChipSelect(PinState::Low, false)),
        ensures
            self.wire() == earlier.wire() + wire_window(false, Seq::empty(), false),
            self.cs_bracketed(earlier),
            !self.asserted_since(earlier),
            self.bus_extended(earlier),
            self.steps_since(earlier) == Seq::<BusEvent>::empty(),
    {
        assert(self.chip_select().driven() =~= earlier.chip_select().driven() + cs_window(false, false));
        assert(self.steps_since(earlier) =~= Seq::<BusEvent>::empty());
        assert(self.bus().issued() =~= earlier.bus().issued() + Seq::<BusEvent>::empty());
        assert(self.wire() =~= earlier.wire() + wire_window(false, Seq::empty(), false));
    }

    /// Drive chip select low, putting the drive on the wire
    fn assert_cs(&mut self) -> (r: Result<(), CsPin::Error>)
        ensures
            final(self).chip_select().driven() == old(self).chip_select().driven().push(
                (PinState::Low, r is Ok),
            ),
            final(self).chip_select().drive_errors() == with_error(
                old(self).chip_select().drive_errors(),
                r,
            ),
            final(self).wire() == old(self).wire().push(WireEvent::ChipSelect(PinState::Low, r is Ok)),
            final(self).bus() == old(self).bus(),
            final(self).same_periphery(old(self)),
            final(self).pending_cs_fault() == old(self).pending_cs_fault(),
    {
        let r = self.cs.set_low();
        self.wire = Ghost(self.wire@.push(WireEvent::ChipSelect(PinState::Low, r is Ok)));
        r
    }

    /// Write on the bus, putting the step on the wire
    fn bus_write(&mut self, data: &[u8]) -> (r: Result<(), Spi::Error>)
        ensures
            final(self).bus().issued() == old(self).bus().issued().push(
                BusEvent::Write { data: data@, ok: r is Ok },
            ),
            final(self).bus().bus_errors() == with_error(old(self).bus().bus_errors(), r),
            final(self).wire() == old(self).wire().push(
                WireEvent::Bus(BusEvent::Write { data: data@, ok: r is Ok }),
            ),
            final(self).chip_select() == old(self).chip_select(),
            final(self).same_periphery(old(self)),
            final(self).pending_cs_fault() == old(self).pending_cs_fault(),
    {
        let r = self.spi.write(data);
        self.wire = Ghost(self.wire@.push(
            WireEvent::Bus(BusEvent::Write { data: data@, ok: r is Ok }),
        ));
        r
    }

    /// Transfer in place on the bus, putting the step on the wire
    fn bus_transfer(&mut self, data: &mut [u8]) -> (r: Result<(), Spi::Error>)
        ensures
            final(data)@.len() == old(data)@.len(),
            final(self).bus().issued() == old(self).bus().issued().push(
                BusEvent::Transfer { sent: old(data)@, received: final(data)@, ok: r is Ok },
            ),
            final(self).bus().bus_errors() == with_error(old(self).bus().bus_errors(), r),
            final(self).wire() == old(self).wire().push(
                WireEvent::Bus(
                    BusEvent::Transfer { sent: old(data)@, received: final(data)@, ok: r is Ok },
                ),
            ),
            final(self).chip_select() == old(self).chip_select(),
            final(self).same_periphery(old(self)),
            final(self).pending_cs_fault() == old(self).pending_cs_fault(),
    {
        let r = self.spi.transfer_in_place(data);
        self.wire = Ghost(self.wire@.push(
            WireEvent::Bus(BusEvent::Transfer { sent: old(data)@, received: data@, ok: r is Ok }),
        ));
        r
    }

    /// Release chip select after the bus work, keeping a release failure back
    /// where the bus failed first
    fn finish<T>(&mut self, work: Result<T, Spi::Error>) -> (r: Result<
        T,
        Error<Spi::Error, CsPin::Error, Delay::Error>,
    >)
        requires
            work matches Err(e) ==> e == old(self).bus().bus_errors().last(),
        ensures
            final(self).errors_named(r),
            final(self).chip_select().driven() == old(self).chip_select().driven().push(
                (PinState::High, final(self).chip_select().driven().last().1),
            ),
            final(self).bus() == old(self).bus(),
            final(self).same_periphery(old(self)),
            final(self).wire() == old(self).wire().push(
                WireEvent::ChipSelect(PinState::High, final(self).chip_select().driven().last().1),
            ),
            origin(r) == call_outcome(
                true,
                work is Ok,
                final(self).chip_select().driven().last().1,
            ),
            final(self).fault_kept(
                old(self),
                true,
                work is Ok,
                final(self).chip_select().driven().last().1,
            ),
            r matches Ok(v) ==> work == Ok::<T, Spi::Error>(v),
    {
        let released = self.cs.set_high();
        self.wire = Ghost(self.wire@.push(WireEvent::ChipSelect(PinState::High, released is Ok)));
        match work {
            Ok(v) => match released {
                Ok(()) => Ok(v),
                Err(p) => Err(Error::Pin(p)),
            },
            Err(e) => {
                match released {
                    Ok(()) => {},
                    Err(p) => {
                        self.cs_fault = Some(p);
                    },
                }
                Err(Error::Spi(e))
            },
        }
    }

    /// Write the bytes with chip select held low
    pub fn write(&mut self, data: &[u8]) -> (r: Result<(), Error<Spi::Error, CsPin::Error, Delay::Error>>)
        ensures
            final(self).cs_bracketed(old(self)),
            final(self).bus_extended(old(self)),
            final(self).steps_since(old(self)) == if final(self).asserted_since(old(self)) {
                seq![BusEvent::Write { data: data@, ok: ended_ok(final(self).steps_since(old(self))) }]
            } else {
                Seq::empty()
            },
            origin(r) == call_outcome(
                final(self).asserted_since(old(self)),
                ended_ok(final(self).steps_since(old(self))),
                final(self).released_since(old(self)),
            ),
            final(self).fault_kept(
                old(self),
                final(self).asserted_since(old(self)),
                ended_ok(final(self).steps_since(old(self))),
                final(self).released_since(old(self)),
            ),
            final(self).wire() == old(self).wire() + wire_window(
                final(self).asserted_since(old(self)),
                final(self).steps_since(old(self)),
                final(self).released_since(old(self)),
            ),
            final(self).errors_named(r),
            final(self).same_periphery(old(self)),
    {
        match self.assert_cs() {
            Ok(()) => {},
            Err(e) => {
                proof {
                    self.lemma_failed_assert(old(self));
                }
                return Err(Error::Pin(e));
            },
        }
        let work = self.bus_write(data);
        let r = self.finish(work);
        proof {
            assert(self.chip_select().driven() =~= old(self).chip_select().driven() + cs_window(
                true,
                self.released_since(old(self)),
            ));
            assert(self.steps_since(old(self)) =~= seq![BusEvent::Write { data: data@, ok: work is Ok }]);
            assert(self.bus().issued() =~= old(self).bus().issued() + self.steps_since(old(self)));
        }
        r
    }
}


impl<Spi: SpiBus, CsPin: OutputPin, BusyPin, ReadyPin, ResetPin, Delay: DelayUs> Wrapper<
    Spi,
    CsPin,
    BusyPin,
    ReadyPin,
    ResetPin,
    Delay,
> {
    /// Transfer the bytes in place with chip select held low
    pub fn transfer_in_place(&mut self, data: &mut [u8]) -> (r: Result<
        (),
        Error<Spi::Error, CsPin::Error, Delay::Error>,
    >)
        ensures
            final(self).cs_bracketed(old(self)),
            final(self).bus_extended(old(self)),
            final(self).steps_since(old(self)) == if final(self).asserted_since(old(self)) {
                seq![
                    BusEvent::Transfer {
                        sent: old(data)@,
                        received: final(data)@,
                        ok: ended_ok(final(self).steps_since(old(self))),
                    },
                ]
            } else {
                Seq::empty()
            },
            final(data)@.len() == old(data)@.len(),
            !final(self).asserted_since(old(self)) ==> final(data)@ == old(data)@,
            origin(r) == call_outcome(
                final(self).asserted_since(old(self)),
                ended_ok(final(self).steps_since(old(self))),
                final(self).released_since(old(self)),
            ),
            final(self).fault_kept(
                old(self),
                final(self).asserted_since(old(self)),
                ended_ok(final(self).steps_since(old(self))),
                final(self).released_since(old(self)),
            ),
            final(self).wire() == old(self).wire() + wire_window(
                final(self).asserted_since(old(self)),
                final(self).steps_since(old(self)),
                final(self).released_since(old(self)),
            ),
            final(self).errors_named(r),
            final(self).same_periphery(old(self)),
    {
        match self.assert_cs() {
            Ok(()) => {},
            Err(e) => {
                proof {
                    self.lemma_failed_assert(old(self));
                }
                return Err(Error::Pin(e));
            },
        }
        let work = self.bus_transfer(data);
        let r = self.finish(work);
        proof {
            assert(self.chip_select().driven() =~= old(self).chip_select().driven() + cs_window(
                true,
                self.released_since(old(self)),
            ));
            assert(self.steps_since(old(self)) =~= seq![
                BusEvent::Transfer { sent: old(data)@, received: data@, ok: work is Ok },
            ]);
            assert(self.bus().issued() =~= old(self).bus().issued() + self.steps_since(old(self)));
        }
        r
    }

    /// Execute the steps in order under one assertion of chip select, stopping at
    /// the first step that fails
    pub fn transaction(&mut self, operations: &mut Vec<Operation>) -> (r: Result<
        (),
        Error<Spi::Error, CsPin::Error, Delay::Error>,
    >)
        ensures
            final(self).cs_bracketed(old(self)),
            final(self).bus_extended(old(self)),
            final(self).asserted_since(old(self)) ==> exec_trace(
                old(operations)@,
                final(operations)@,
                final(self).steps_since(old(self)),
            ),
            !final(self).asserted_since(old(self)) ==> final(self).steps_since(old(self))
                == Seq::<BusEvent>::empty() && final(operations)@ == old(operations)@,
            origin(r) == call_outcome(
                final(self).asserted_since(old(self)),
                ended_ok(final(self).steps_since(old(self))),
                final(self).released_since(old(self)),
            ),
            final(self).fault_kept(
                old(self),
                final(self).asserted_since(old(self)),
                ended_ok(final(self).steps_since(old(self))),
                final(self).released_since(old(self)),
            ),
            final(self).wire() == old(self).wire() + wire_window(
                final(self).asserted_since(old(self)),
                final(self).steps_since(old(self)),
                final(self).released_since(old(self)),
            ),
            final(self).errors_named(r),
            final(self).same_periphery(old(self)),
    {
        match self.assert_cs() {
            Ok(()) => {},
            Err(e) => {
                proof {
                    self.lemma_failed_assert(old(self));
                }
                return Err(Error::Pin(e));
            },
        }
        let ghost start = *self;
        let ghost ops0 = operations@;
        let mut i: usize = 0;
        let mut failure: Option<Spi::Error> = None;
        proof {
            assert(self.steps_since(&start) =~= Seq::<BusEvent>::empty());
            assert(self.bus().issued() =~= start.bus().issued() + Seq::<BusEvent>::empty());
            assert(self.wire() =~= start.wire() + bus_wire(Seq::<BusEvent>::empty()));
        }
        while i < operations.len() && failure.is_none()
            invariant
                i <= ops0.len(),
                operations@.len() == ops0.len(),
                self.chip_select() == start.chip_select(),
                self.same_periphery(&start),
                self.pending_cs_fault() == start.pending_cs_fault(),
                self.bus_extended(&start),
                self.steps_since(&start).len() == i,
                forall|j: int|
                    0 <= j < i ==> #[trigger] self.steps_since(&start)[j] == step_event(
                        ops0[j],
                        operations@[j],
                        self.steps_since(&start)[j].ok(),
                    ) && step_result(ops0[j], operations@[j]),
                forall|j: int| 0 <= j < i - 1 ==> #[trigger] self.steps_since(&start)[j].ok(),
                failure is Some <==> (i > 0 && !self.steps_since(&start)[i - 1].ok()),
                failure matches Some(e) ==> e == self.bus().bus_errors().last(),
                self.wire() == start.wire() + bus_wire(self.steps_since(&start)),
                forall|j: int| i <= j < ops0.len() ==> #[trigger] operations@[j] == ops0[j],
            decreases ops0.len() - i,
        {
            let ghost steps_before = self.steps_since(&start);
            let res = match &mut operations[i] {
                Operation::Write(d) => self.bus_write(d.as_slice()),
                Operation::Transfer(d) => self.bus_transfer(d.as_mut_slice()),
            };
            proof {
                assert(self.steps_since(&start) =~= steps_before.push(self.bus().issued().last()));
                assert(bus_wire(self.steps_since(&start)) =~= bus_wire(steps_before).push(
                    WireEvent::Bus(self.bus().issued().last()),
                ));
                assert(self.wire() =~= start.wire() + bus_wire(self.steps_since(&start)));
                assert(self.bus().issued() =~= start.bus().issued() + self.steps_since(&start));
                assert(self.steps_since(&start)[i as int] == step_event(
                    ops0[i as int],
                    operations@[i as int],
                    res is Ok,
                ));
            }
            match res {
                Ok(()) => {},
                Err(e) => {
                    failure = Some(e);
                },
            }
            i += 1;
        }
        let work = match failure {
            Some(e) => Err(e),
            None => Ok(()),
        };
        let ghost before_release = *self;
        let r = self.finish(work);
        proof {
            assert(self.chip_select().driven() =~= old(self).chip_select().driven() + cs_window(
                true,
                self.released_since(old(self)),
            ));
            assert(self.steps_since(old(self)) =~= before_release.steps_since(&start));
            assert(ended_ok(self.steps_since(old(self))) == (work is Ok));
            assert(self.wire() =~= old(self).wire() + wire_window(
                true,
                self.steps_since(old(self)),
                self.released_since(old(self)),
            ));
        }
        r
    }
}

impl<Spi: SpiBus, CsPin: OutputPin, BusyPin, ReadyPin, ResetPin, Delay: DelayUs> PrefixWrite for Wrapper<
    Spi,
    CsPin,
    BusyPin,
    ReadyPin,
    ResetPin,
    Delay,
> {
    type Error = Error<Spi::Error, CsPin::Error, Delay::Error>;

    /// Write the prefix then, only where that succeeded, the data, under one
    /// assertion of chip select
    fn prefix_write(&mut self, prefix: &[u8], data: &[u8]) -> (r: Result<(), Self::Error>)
        ensures
            final(self).cs_bracketed(old(self)),
            final(self).bus_extended(old(self)),
            final(self).steps_since(old(self)) == if final(self).asserted_since(old(self)) {
                prefix_write_steps(
                    prefix@,
                    data@,
                    final(self).steps_since(old(self))[0].ok(),
                    final(self).steps_since(old(self))[1].ok(),
                )
            } else {
                Seq::empty()
            },
            origin(r) == call_outcome(
                final(self).asserted_since(old(self)),
                ended_ok(final(self).steps_since(old(self))),
                final(self).released_since(old(self)),
            ),
            final(self).fault_kept(
                old(self),
                final(self).asserted_since(old(self)),
                ended_ok(final(self).steps_since(old(self))),
                final(self).released_since(old(self)),
            ),
            final(self).wire() == old(self).wire() + wire_window(
                final(self).asserted_since(old(self)),
                final(self).steps_since(old(self)),
                final(self).released_since(old(self)),
            ),
            final(self).errors_named(r),
            final(self).same_periphery(old(self)),
    {
        match self.assert_cs() {
            Ok(()) => {},
            Err(e) => {
                proof {
                    self.lemma_failed_assert(old(self));
                }
                return Err(Error::Pin(e));
            },
        }
        let first = self.bus_write(prefix);
        let work = match first {
            Ok(()) => self.bus_write(data),
            Err(e) => Err(e),
        };
        let r = self.finish(work);
        proof {
            assert(self.chip_select().driven() =~= old(self).chip_select().driven() + cs_window(
                true,
                self.released_since(old(self)),
            ));
            let steps = prefix_write_steps(prefix@, data@, first is Ok, work is Ok);
            assert(self.steps_since(old(self)) =~= steps);
            assert(self.bus().issued() =~= old(self).bus().issued() + steps);
        }
        r
    }
}

impl<Spi: SpiBus, CsPin: OutputPin, BusyPin, ReadyPin, ResetPin, Delay: DelayUs> PrefixRead for Wrapper<
    Spi,
    CsPin,
    BusyPin,
    ReadyPin,
    ResetPin,
    Delay,
> {
    type Error = Error<Spi::Error, CsPin::Error, Delay::Error>;

    /// Write the prefix then, only where that succeeded, transfer the buffer in
    /// place, under one assertion of chip select. The buffer's old contents are
    /// clocked out while it is filled.
    fn prefix_read(&mut self, prefix: &[u8], data: &mut [u8]) -> (r: Result<(), Self::Error>)
        ensures
            final(self).cs_bracketed(old(self)),
            final(self).bus_extended(old(self)),
            final(self).steps_since(old(self)) == if final(self).asserted_since(old(self)) {
                prefix_read_steps(
                    prefix@,
                    old(data)@,
                    final(data)@,
                    final(self).steps_since(old(self))[0].ok(),
                    final(self).steps_since(old(self))[1].ok(),
                )
            } else {
                Seq::empty()
            },
            final(data)@.len() == old(data)@.len(),
            !(final(self).asserted_since(old(self)) && final(self).steps_since(old(self))[0].ok())
                ==> final(data)@ == old(data)@,
            origin(r) == call_outcome(
                final(self).asserted_since(old(self)),
                ended_ok(final(self).steps_since(old(self))),
                final(self).released_since(old(self)),
            ),
            final(self).fault_kept(
                old(self),
                final(self).asserted_since(old(self)),
                ended_ok(final(self).steps_since(old(self))),
                final(self).released_since(old(self)),
            ),
            final(self).wire() == old(self).wire() + wire_window(
                final(self).asserted_since(old(self)),
                final(self).steps_since(old(self)),
                final(self).released_since(old(self)),
            ),
            final(self).errors_named(r),
            final(self).same_periphery(old(self)),
    {
        match self.assert_cs() {
            Ok(()) => {},
            Err(e) => {
                proof {
                    self.lemma_failed_assert(old(self));
                }
                return Err(Error::Pin(e));
            },
        }
        let first = self.bus_write(prefix);
        let work = match first {
            Ok(()) => self.bus_transfer(data),
            Err(e) => Err(e),
        };
        let r = self.finish(work);
        proof {
            assert(self.chip_select().driven() =~= old(self).chip_select().driven() + cs_window(
                true,
                self.released_since(old(self)),
            ));
            let steps = prefix_read_steps(prefix@, old(data)@, data@, first is Ok, work is Ok);
            assert(self.steps_since(old(self)) =~= steps);
            assert(self.bus().issued() =~= old(self).bus().issued() + steps);
        }
        r
    }
}

impl<Spi: SpiBus, CsPin: OutputPin, BusyPin, ReadyPin, ResetPin, Delay: DelayUs> Transactional for Wrapper<
    Spi,
    CsPin,
    BusyPin,
    ReadyPin,
    ResetPin,
    Delay,
> {
    type Error = Error<Spi::Error, CsPin::Error, Delay::Error>;

    /// Execute the steps as one transaction, as `transaction` does
    fn exec(&mut self, operations: &mut Vec<Operation>) -> (r: Result<(), Self::Error>)
        ensures
            final(self).cs_bracketed(old(self)),
            final(self).bus_extended(old(self)),
            final(self).asserted_since(old(self)) ==> exec_trace(
                old(operations)@,
                final(operations)@,
                final(self).steps_since(old(self)),
            ),
            !final(self).asserted_since(old(self)) ==> final(self).steps_since(old(self))
                == Seq::<BusEvent>::empty() && final(operations)@ == old(operations)@,
            origin(r) == call_outcome(
                final(self).asserted_since(old(self)),
                ended_ok(final(self).steps_since(old(self))),
                final(self).released_since(old(self)),
            ),
            final(self).fault_kept(
                old(self),
                final(self).asserted_since(old(self)),
                ended_ok(final(self).steps_since(old(self))),
                final(self).released_since(old(self)),
            ),
            final(self).wire() == old(self).wire() + wire_window(
                final(self).asserted_since(old(self)),
                final(self).steps_since(old(self)),
                final(self).released_since(old(self)),
            ),
            final(self).errors_named(r),
            final(self).same_periphery(old(self)),
    {
        self.transaction(operations)
    }
}

impl<Spi: SpiBus, CsPin: OutputPin, BusyPin: InputPin, ReadyPin, ResetPin, Delay: DelayUs> Busy for Wrapper<
    Spi,
    CsPin,
    BusyPin,
    ReadyPin,
    ResetPin,
    Delay,
> {
    type Error = Error<Spi::Error, BusyPin::Error, Delay::Error>;

    /// Read the busy pin, or fail with `NoPin` where none is bound
    fn get_busy(&mut self) -> (r: Result<PinState, Self::Error>)
        ensures
            old(self).busy_pin() is None ==> origin(r) == Origin::NoPin && *final(self) == *old(self),
            old(self).busy_pin() is Some ==> {
                &&& final(self).busy_pin() is Some
                &&& final(self).busy_pin()->Some_0.sampled() == old(self).busy_pin()->Some_0.sampled().push(
                    match r {
                        Ok(s) => Some(s),
                        Err(_) => None,
                    },
                )
                &&& r is Err ==> origin(r) == Origin::Pin
                &&& r matches Err(Error::Pin(p)) ==> p == final(self).busy_pin()->Some_0.read_errors().last()
            },
            final(self).bus() == old(self).bus(),
            final(self).chip_select() == old(self).chip_select(),
            final(self).reset_pin() == old(self).reset_pin(),
            final(self).ready_pin() == old(self).ready_pin(),
            final(self).delay_source() == old(self).delay_source(),
            final(self).pending_cs_fault() == old(self).pending_cs_fault(),
            final(self).wire() == old(self).wire(),
    {
        match &mut self.busy {
            None => Err(Error::NoPin),
            Some(p) => match p.is_high() {
                Ok(v) => Ok(PinState::from_high(v)),
                Err(e) => Err(Error::Pin(e)),
            },
        }
    }
}

impl<Spi: SpiBus, CsPin: OutputPin, BusyPin, ReadyPin: InputPin, ResetPin, Delay: DelayUs> Ready for Wrapper<
    Spi,
    CsPin,
    BusyPin,
    ReadyPin,
    ResetPin,
    Delay,
> {
    type Error = Error<Spi::Error, ReadyPin::Error, Delay::Error>;

    /// Read the ready pin, or fail with `NoPin` where none is bound
    fn get_ready(&mut self) -> (r: Result<PinState, Self::Error>)
        ensures
            old(self).ready_pin() is None ==> origin(r) == Origin::NoPin && *final(self) == *old(self),
            old(self).ready_pin() is Some ==> {
                &&& final(self).ready_pin() is Some
                &&& final(self).ready_pin()->Some_0.sampled() == old(self).ready_pin()->Some_0.sampled().push(
                    match r {
                        Ok(s) => Some(s),
                        Err(_) => None,
                    },
                )
                &&& r is Err ==> origin(r) == Origin::Pin
                &&& r matches Err(Error::Pin(p)) ==> p == final(self).ready_pin()->Some_0.read_errors().last()
            },
            final(self).bus() == old(self).bus(),
            final(self).chip_select() == old(self).chip_select(),
            final(self).reset_pin() == old(self).reset_pin(),
            final(self).busy_pin() == old(self).busy_pin(),
            final(self).delay_source() == old(self).delay_source(),
            final(self).pending_cs_fault() == old(self).pending_cs_fault(),
            final(self).wire() == old(self).wire(),
    {
        match &mut self.ready {
            None => Err(Error::NoPin),
            Some(p) => match p.is_high() {
                Ok(v) => Ok(PinState::from_high(v)),
                Err(e) => Err(Error::Pin(e)),
            },
        }
    }
}

impl<Spi: SpiBus, CsPin: OutputPin, BusyPin, ReadyPin, ResetPin: OutputPin, Delay: DelayUs> Reset for Wrapper<
    Spi,
    CsPin,
    BusyPin,
    ReadyPin,
    ResetPin,
    Delay,
> {
    type Error = Error<Spi::Error, ResetPin::Error, Delay::Error>;

    /// Drive the reset pin to the level, or fail with `NoPin` where none is bound
    fn set_reset(&mut self, state: PinState) -> (r: Result<(), Self::Error>)
        ensures
            old(self).reset_pin() is None ==> origin(r) == Origin::NoPin && *final(self) == *old(self),
            old(self).reset_pin() is Some ==> {
                &&& final(self).reset_pin() is Some
                &&& final(self).reset_pin()->Some_0.driven() == old(self).reset_pin()->Some_0.driven().push(
                    (state, r is Ok),
                )
                &&& r is Err ==> origin(r) == Origin::Pin
                &&& r matches Err(Error::Pin(p)) ==> p == final(self).reset_pin()->Some_0.drive_errors().last()
            },
            final(self).bus() == old(self).bus(),
            final(self).chip_select() == old(self).chip_select(),
            final(self).busy_pin() == old(self).busy_pin(),
            final(self).ready_pin() == old(self).ready_pin(),
            final(self).delay_source() == old(self).delay_source(),
            final(self).pending_cs_fault() == old(self).pending_cs_fault(),
            final(self).wire() == old(self).wire(),
    {
        match &mut self.reset {
            None => Err(Error::NoPin),
            Some(p) => {
                let res = match state {
                    PinState::High => p.set_high(),
                    PinState::Low => p.set_low(),
                };
                match res {
                    Ok(()) => Ok(()),
                    Err(e) => Err(Error::Pin(e)),
                }
            },
        }
    }
}

impl<Spi: SpiBus, CsPin: OutputPin, BusyPin, ReadyPin, ResetPin, Delay: DelayUs> DelayUs for Wrapper<
    Spi,
    CsPin,
    BusyPin,
    ReadyPin,
    ResetPin,
    Delay,
> {
    type Error = Error<Spi::Error, CsPin::Error, Delay::Error>;

    open spec fn waited(&self) -> Seq<u32> {
        self.delay_source().waited()
    }

    open spec fn delay_errors(&self) -> Seq<Self::Error> {
        self.delay_source().delay_errors().map_values(|e: Delay::Error| Error::Delay(e))
    }

    /// Wait on the delay source
    fn delay_us(&mut self, us: u32) -> (r: Result<(), Self::Error>)
        ensures
            r is Err ==> origin(r) == Origin::Delay,
            r matches Err(Error::Delay(e)) ==> e == final(self).delay_source().delay_errors().last(),
            final(self).bus() == old(self).bus(),
            final(self).chip_select() == old(self).chip_select(),
            final(self).busy_pin() == old(self).busy_pin(),
            final(self).ready_pin() == old(self).ready_pin(),
            final(self).reset_pin() == old(self).reset_pin(),
            final(self).pending_cs_fault() == old(self).pending_cs_fault(),
            final(self).wire() == old(self).wire(),
    {
        match self.delay.delay_us(us) {
            Ok(()) => Ok(()),
            Err(e) => Err(Error::Delay(e)),
        }
    }
}

} // verus!
