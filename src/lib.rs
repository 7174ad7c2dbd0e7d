//! Transactional SPI helpers for peripheral drivers.
//!
//! A driver talks to its peripheral through the `PrefixRead`, `PrefixWrite` and
//! `Transactional` operations. `wrapper::Wrapper` builds them from a raw bus and a
//! chip-select pin, asserting chip select for exactly the span of one call, and
//! `mock` offers an expectation engine that records every operation issued against
//! simulated buses and pins so that tests can check the sequence afterwards.
use vstd::prelude::*;

pub mod backend;
pub mod hal;
pub mod mock;
pub mod wrapper;

verus! {

/// Logical level of a digital line
#[derive(PartialEq, Eq, Structural, Clone, Copy, Debug)]
pub enum PinState {
    Low,
    High,
}

impl PinState {
    /// Level that corresponds to an `is_high` reading
    pub open spec fn from_level(high: bool) -> PinState {
        if high {
            PinState::High
        } else {
            PinState::Low
        }
    }

    /// Turn an `is_high` reading into a level
    pub fn from_high(high: bool) -> (s: PinState)
        ensures
            s == PinState::from_level(high),
    {
        if high {
            PinState::High
        } else {
            PinState::Low
        }
    }
}

/// Error type combining bus, pin and delay errors
#[derive(Debug, Clone, PartialEq)]
pub enum Error<SpiError, PinError, DelayError> {
    /// The bus reported a failure
    Spi(SpiError),
    /// A pin reported a failure
    Pin(PinError),
    /// The delay source reported a failure
    Delay(DelayError),
    /// A transaction stopped partway through
    Aborted,
    /// An optional pin was used that is not bound
    NoPin,
}

/// Which of the error origins a result carries
#[derive(PartialEq, Eq, Structural, Clone, Copy, Debug)]
pub enum Origin {
    Success,
    Spi,
    Pin,
    Delay,
    Aborted,
    NoPin,
}

/// Origin of a result with a composite error
pub open spec fn origin<T, S, P, D>(r: Result<T, Error<S, P, D>>) -> Origin {
    match r {
        Ok(_) => Origin::Success,
        Err(Error::Spi(_)) => Origin::Spi,
        Err(Error::Pin(_)) => Origin::Pin,
        Err(Error::Delay(_)) => Origin::Delay,
        Err(Error::Aborted) => Origin::Aborted,
        Err(Error::NoPin) => Origin::NoPin,
    }
}

/// One step of a transaction
#[derive(Debug, Clone, PartialEq)]
pub enum Operation {
    /// Write the bytes, ignoring whatever comes back
    Write(Vec<u8>),
    /// Clock the bytes out and overwrite them with the bytes clocked in
    Transfer(Vec<u8>),
}

/// What a bus observed of one step, and whether the step succeeded
pub enum BusEvent {
    Write { data: Seq<u8>, ok: bool },
    Transfer { sent: Seq<u8>, received: Seq<u8>, ok: bool },
}

impl BusEvent {
    pub open spec fn ok(self) -> bool {
        match self {
            BusEvent::Write { ok, .. } => ok,
            BusEvent::Transfer { ok, .. } => ok,
        }
    }
}

/// The event that the step `before` leaves on the bus when it becomes `after`
pub open spec fn step_event(before: Operation, after: Operation, ok: bool) -> BusEvent {
    match before {
        Operation::Write(d) => BusEvent::Write { data: d@, ok },
        Operation::Transfer(d) => BusEvent::Transfer {
            sent: d@,
            received: match after {
                Operation::Transfer(e) => e@,
                Operation::Write(e) => e@,
            },
            ok,
        },
    }
}

/// `after` is what executing the step `before` may leave: a write is unchanged,
/// a transfer keeps its kind and its length
pub open spec fn step_result(before: Operation, after: Operation) -> bool {
    match before {
        Operation::Write(d) => after is Write && after->Write_0@ == d@,
        Operation::Transfer(d) => after is Transfer && after->Transfer_0@.len() == d@.len(),
    }
}

/// An error history after a call with the result `r`: the error appended where
/// the call failed
pub open spec fn with_error<T, E>(errors: Seq<E>, r: Result<T, E>) -> Seq<E> {
    match r {
        Ok(_) => errors,
        Err(e) => errors.push(e),
    }
}

/// Byte-level bus capability: exclusive, synchronous access to one peripheral
pub trait SpiBus {
    type Error;

    /// Every step issued on this bus, in order
    spec fn issued(&self) -> Seq<BusEvent>;

    /// Every error this bus returned, in order
    spec fn bus_errors(&self) -> Seq<Self::Error>;

    /// Write the bytes
    fn write(&mut self, data: &[u8]) -> (r: Result<(), Self::Error>)
        ensures
            final(self).issued() == old(self).issued().push(
                BusEvent::Write { data: data@, ok: r is Ok },
            ),
            final(self).bus_errors() == match r {
                Ok(_) => old(self).bus_errors(),
                Err(e) => old(self).bus_errors().push(e),
            },
    ;

    /// Clock the bytes out and replace them with the bytes clocked in
    fn transfer_in_place(&mut self, data: &mut [u8]) -> (r: Result<(), Self::Error>)
        ensures
            final(data)@.len() == old(data)@.len(),
            final(self).issued() == old(self).issued().push(
                BusEvent::Transfer { sent: old(data)@, received: final(data)@, ok: r is Ok },
            ),
            final(self).bus_errors() == match r {
                Ok(_) => old(self).bus_errors(),
                Err(e) => old(self).bus_errors().push(e),
            },
    ;
}

/// Output pin capability
pub trait OutputPin {
    type Error;

    /// Every level driven on this pin, in order, each with whether it succeeded
    spec fn driven(&self) -> Seq<(PinState, bool)>;

    /// Every error this pin returned, in order
    spec fn drive_errors(&self) -> Seq<Self::Error>;

    fn set_high(&mut self) -> (r: Result<(), Self::Error>)
        ensures
            final(self).driven() == old(self).driven().push((PinState::High, r is Ok)),
            final(self).drive_errors() == match r {
                Ok(_) => old(self).drive_errors(),
                Err(e) => old(self).drive_errors().push(e),
            },
    ;

    fn set_low(&mut self) -> (r: Result<(), Self::Error>)
        ensures
            final(self).driven() == old(self).driven().push((PinState::Low, r is Ok)),
            final(self).drive_errors() == match r {
                Ok(_) => old(self).drive_errors(),
                Err(e) => old(self).drive_errors().push(e),
            },
    ;
}

/// Input pin capability
pub trait InputPin {
    type Error;

    /// Every reading of this pin, in order: the level seen, or `None` where it failed
    spec fn sampled(&self) -> Seq<Option<PinState>>;

    /// Every error this pin returned, in order
    spec fn read_errors(&self) -> Seq<Self::Error>;

    fn is_high(&mut self) -> (r: Result<bool, Self::Error>)
        ensures
            final(self).sampled() == old(self).sampled().push(
                match r {
                    Ok(v) => Some(PinState::from_level(v)),
                    Err(_) => None,
                },
            ),
            final(self).read_errors() == match r {
                Ok(_) => old(self).read_errors(),
                Err(e) => old(self).read_errors().push(e),
            },
    ;

    fn is_low(&mut self) -> (r: Result<bool, Self::Error>)
        ensures
            final(self).sampled() == old(self).sampled().push(
                match r {
                    Ok(v) => Some(PinState::from_level(!v)),
                    Err(_) => None,
                },
            ),
            final(self).read_errors() == match r {
                Ok(_) => old(self).read_errors(),
                Err(e) => old(self).read_errors().push(e),
            },
    ;
}

/// Microsecond delay capability
pub trait DelayUs {
    type Error;

    /// Every wait requested, in microseconds
    spec fn waited(&self) -> Seq<u32>;

    /// Every error this delay source returned, in order
    spec fn delay_errors(&self) -> Seq<Self::Error>;

    fn delay_us(&mut self, us: u32) -> (r: Result<(), Self::Error>)
        ensures
            final(self).waited() == old(self).waited().push(us),
            final(self).delay_errors() == match r {
                Ok(_) => old(self).delay_errors(),
                Err(e) => old(self).delay_errors().push(e),
            },
    ;
}

/// Marker trait: chip select is managed by the driver
pub trait ManagedChipSelect {
}

/// Marker trait for types that may be handed across a C boundary as an opaque context
pub trait Cursed {
}

/// Write a prefix then the data, as one transaction
pub trait PrefixWrite {
    type Error;

    fn prefix_write(&mut self, prefix: &[u8], data: &[u8]) -> (r: Result<(), Self::Error>);
}

/// Write a prefix then read into the buffer, as one transaction.
///
/// SPI is full duplex: while the buffer is filled, its old contents are clocked out.
pub trait PrefixRead {
    type Error;

    fn prefix_read(&mut self, prefix: &[u8], data: &mut [u8]) -> (r: Result<(), Self::Error>)
        ensures
            final(data)@.len() == old(data)@.len(),
    ;
}

/// Execute an ordered list of steps as one transaction
pub trait Transactional {
    type Error;

    fn exec(&mut self, operations: &mut Vec<Operation>) -> (r: Result<(), Self::Error>)
        ensures
            final(operations)@.len() == old(operations)@.len(),
    ;
}

/// Set the chip-select state of a peripheral that leaves it to the caller
pub trait ChipSelect {
    type Error;

    fn set_cs(&mut self, state: PinState) -> (r: Result<(), Self::Error>);
}

/// Peripherals with a busy signal
pub trait Busy {
    type Error;

    fn get_busy(&mut self) -> (r: Result<PinState, Self::Error>);
}

/// Peripherals with a reset or shutdown line
pub trait Reset {
    type Error;

    fn set_reset(&mut self, state: PinState) -> (r: Result<(), Self::Error>);
}

/// Peripherals with a ready (or interrupt) signal
pub trait Ready {
    type Error;

    fn get_ready(&mut self) -> (r: Result<PinState, Self::Error>);
}

/// The functions commonly required of an SPI peripheral, all with one error type
pub trait Hal<E>: PrefixWrite<Error = E> + PrefixRead<Error = E> + Transactional<
    Error = E,
> + Busy<Error = E> + Ready<Error = E> + Reset<Error = E> + DelayUs<Error = E> {

}

impl<T, E> Hal<E> for T where
    T: PrefixWrite<Error = E> + PrefixRead<Error = E> + Transactional<Error = E> + Busy<
        Error = E,
    > + Ready<Error = E> + Reset<Error = E> + DelayUs<Error = E>,
 {

}

/// Status code for a caller across a C boundary: 0 on success, -1 on failure,
/// with the error kept in `last_error` until the caller asks for it
pub fn report_status<E>(r: Result<(), E>, last_error: &mut Option<E>) -> (code: isize)
    ensures
        r is Ok ==> code == 0 && *final(last_error) == *old(last_error),
        r matches Err(e) ==> code == -1 && *final(last_error) == Some(e),
{
    match r {
        Ok(()) => 0,
        Err(e) => {
            *last_error = Some(e);
            -1
        },
    }
}

} // verus!
