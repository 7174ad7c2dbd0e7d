//! Backend dispatch: one bus type, one input pin type and one output pin type
//! over the closed set of supported drivers, each recording what was issued
//! through it. The bus is the Linux spidev device; pins are Linux sysfs GPIOs or
//! the CP2130 USB bridge's GPIOs.
//!
//! The bridge's own bus is not offered here: its driver times each transfer with
//! `SystemTime::elapsed().unwrap()`, which panics if the system clock steps
//! backwards, and waits without bound while the device answers with no bytes,
//! whatever the arguments, so no function of this library can call it.
use vstd::prelude::*;

use driver_cp2130::InputPin as BridgeInput;
use driver_cp2130::OutputPin as BridgeOutput;
use linux_embedded_hal::Delay as LinuxDelay;
use linux_embedded_hal::{SPIError, SpidevDevice, SysfsPin, SysfsPinError};

use crate::hal::HalError;
use crate::{with_error, BusEvent, DelayUs, InputPin, OutputPin, PinState, SpiBus};

verus! {

#[verifier::external_type_specification]
#[verifier::external_body]
pub struct ExSpidevDevice(SpidevDevice);

#[verifier::external_type_specification]
#[verifier::external_body]
pub struct ExSpiError(SPIError);

#[verifier::external_type_specification]
#[verifier::external_body]
pub struct ExSysfsPin(SysfsPin);

#[verifier::external_type_specification]
#[verifier::external_body]
pub struct ExSysfsPinError(SysfsPinError);

#[verifier::external_type_specification]
#[verifier::external_body]
pub struct ExBridgeInput(BridgeInput);

#[verifier::external_type_specification]
#[verifier::external_body]
pub struct ExBridgeOutput(BridgeOutput);

#[verifier::external_type_specification]
#[verifier::external_body]
pub struct ExLinuxDelay(LinuxDelay);

/// A spidev device with the record of the steps issued on it; only the driver
/// calls below add to the record
pub struct SpidevLine {
    dev: SpidevDevice,
    issued: Ghost<Seq<BusEvent>>,
}

/// A sysfs GPIO driven as an output, with the record of the levels driven
pub struct SysfsOutput {
    pin: SysfsPin,
    driven: Ghost<Seq<(PinState, bool)>>,
}

/// A sysfs GPIO read as an input, with the record of the readings
pub struct SysfsInput {
    pin: SysfsPin,
    sampled: Ghost<Seq<Option<PinState>>>,
}

/// A bridge GPIO driven as an output, with the record of the levels driven
pub struct BridgeOutputLine {
    pin: BridgeOutput,
    driven: Ghost<Seq<(PinState, bool)>>,
}

/// A bridge GPIO read as an input, with the record of the readings
pub struct BridgeInputLine {
    pin: BridgeInput,
    sampled: Ghost<Seq<Option<PinState>>>,
}

/// Relies on `SpiDevice::write` of `linux_embedded_hal::SpidevDevice`: one
/// write transaction of the bytes on the device, which the record notes with
/// its outcome.
#[verifier::external_body]
fn spidev_write(line: &mut SpidevLine, data: &[u8]) -> (r: Result<(), SPIError>)
    ensures
        final(line).issued@ == old(line).issued@.push(BusEvent::Write { data: data@, ok: r is Ok }),
{
    embedded_hal::spi::SpiDevice::write(&mut line.dev, data)
}

/// Relies on `SpiDevice::transfer_in_place` of `linux_embedded_hal::SpidevDevice`:
/// the bytes are clocked out and the bytes received overwrite the buffer, whose
/// length a slice cannot change; the record notes both with the outcome.
#[verifier::external_body]
fn spidev_transfer(line: &mut SpidevLine, data: &mut [u8]) -> (r: Result<(), SPIError>)
    ensures
        final(data)@.len() == old(data)@.len(),
        final(line).issued@ == old(line).issued@.push(
            BusEvent::Transfer { sent: old(data)@, received: final(data)@, ok: r is Ok },
        ),
{
    embedded_hal::spi::SpiDevice::transfer_in_place(&mut line.dev, data)
}

/// Relies on `OutputPin::set_high` of `linux_embedded_hal::SysfsPin`: one drive
/// high, which the record notes with its outcome.
#[verifier::external_body]
fn sysfs_set_high(line: &mut SysfsOutput) -> (r: Result<(), SysfsPinError>)
    ensures
        final(line).driven@ == old(line).driven@.push((PinState::High, r is Ok)),
{
    embedded_hal::digital::OutputPin::set_high(&mut line.pin)
}

/// Relies on `OutputPin::set_low` of `linux_embedded_hal::SysfsPin`: one drive
/// low, which the record notes with its outcome.
#[verifier::external_body]
fn sysfs_set_low(line: &mut SysfsOutput) -> (r: Result<(), SysfsPinError>)
    ensures
        final(line).driven@ == old(line).driven@.push((PinState::Low, r is Ok)),
{
    embedded_hal::digital::OutputPin::set_low(&mut line.pin)
}

/// Relies on `InputPin::is_high` of `linux_embedded_hal::SysfsPin`: one reading,
/// which the record notes.
#[verifier::external_body]
fn sysfs_is_high(line: &mut SysfsInput) -> (r: Result<bool, SysfsPinError>)
    ensures
        final(line).sampled@ == old(line).sampled@.push(
            match r {
                Ok(v) => Some(PinState::from_level(v)),
                Err(_) => None,
            },
        ),
{
    embedded_hal::digital::InputPin::is_high(&mut line.pin)
}

/// Relies on `InputPin::is_high` of `driver_cp2130::InputPin`: one reading,
/// which the record notes.
#[verifier::external_body]
fn bridge_is_high(line: &mut BridgeInputLine) -> (r: Result<bool, driver_cp2130::Error>)
    ensures
        final(line).sampled@ == old(line).sampled@.push(
            match r {
                Ok(v) => Some(PinState::from_level(v)),
                Err(_) => None,
            },
        ),
{
    embedded_hal::digital::InputPin::is_high(&mut line.pin)
}

/// Relies on `OutputPin::set_high` of `driver_cp2130::OutputPin`: one drive
/// high, which the record notes with its outcome.
#[verifier::external_body]
fn bridge_set_high(line: &mut BridgeOutputLine) -> (r: Result<(), driver_cp2130::Error>)
    ensures
        final(line).driven@ == old(line).driven@.push((PinState::High, r is Ok)),
{
    embedded_hal::digital::OutputPin::set_high(&mut line.pin)
}

/// Relies on `OutputPin::set_low` of `driver_cp2130::OutputPin`: one drive low,
/// which the record notes with its outcome.
#[verifier::external_body]
fn bridge_set_low(line: &mut BridgeOutputLine) -> (r: Result<(), driver_cp2130::Error>)
    ensures
        final(line).driven@ == old(line).driven@.push((PinState::Low, r is Ok)),
{
    embedded_hal::digital::OutputPin::set_low(&mut line.pin)
}

/// Relies on `DelayNs::delay_us` of `linux_embedded_hal::Delay`, which blocks
/// the calling thread for the time given.
#[verifier::external_body]
fn linux_delay_us(us: u32) {
    embedded_hal::delay::DelayNs::delay_us(&mut LinuxDelay, us)
}

/// The driver behind an input pin, if any
pub enum InputDriver {
    Linux(SysfsInput),
    Cp2130(BridgeInputLine),
    Unbound,
}

/// The driver behind an output pin, if any
pub enum OutputDriver {
    Linux(SysfsOutput),
    Cp2130(BridgeOutputLine),
    Unbound,
}

/// The spidev bus
pub struct HalSpi {
    line: SpidevLine,
    failed: Ghost<Seq<HalError>>,
}

impl HalSpi {
    /// Every step issued on the bus, as the driver calls recorded them
    pub closed spec fn history(&self) -> Seq<BusEvent> {
        self.line.issued@
    }

    /// Every error returned
    pub closed spec fn error_history(&self) -> Seq<HalError> {
        self.failed@
    }

    pub fn new(dev: SpidevDevice) -> (s: HalSpi)
        ensures
            s.history() == Seq::<BusEvent>::empty(),
            s.error_history() == Seq::<HalError>::empty(),
    {
        HalSpi {
            line: SpidevLine { dev, issued: Ghost(Seq::empty()) },
            failed: Ghost(Seq::empty()),
        }
    }
}

impl SpiBus for HalSpi {
    type Error = HalError;

    open spec fn issued(&self) -> Seq<BusEvent> {
        self.history()
    }

    open spec fn bus_errors(&self) -> Seq<HalError> {
        self.error_history()
    }

    /// Write through the driver, keeping its error
    fn write(&mut self, data: &[u8]) -> (r: Result<(), HalError>)
        ensures
            r matches Err(e) ==> e is Spi,
    {
        let r = match spidev_write(&mut self.line, data) {
            Ok(()) => Ok(()),
            Err(e) => Err(HalError::Spi(e)),
        };
        self.failed = Ghost(with_error(self.failed@, r));
        r
    }

    /// Transfer in place through the driver, keeping its error
    fn transfer_in_place(&mut self, data: &mut [u8]) -> (r: Result<(), HalError>)
        ensures
            r matches Err(e) ==> e is Spi,
    {
        let r = match spidev_transfer(&mut self.line, data) {
            Ok(()) => Ok(()),
            Err(e) => Err(HalError::Spi(e)),
        };
        self.failed = Ghost(with_error(self.failed@, r));
        r
    }
}

/// Input pin of whichever backend was selected, or none
pub struct HalInputPin {
    driver: InputDriver,
    unbound_sampled: Ghost<Seq<Option<PinState>>>,
    failed: Ghost<Seq<HalError>>,
}

impl HalInputPin {
    /// Every reading taken: as the driver calls recorded them where a driver is
    /// bound, else one failed reading per call
    pub closed spec fn history(&self) -> Seq<Option<PinState>> {
        match self.driver {
            InputDriver::Linux(l) => l.sampled@,
            InputDriver::Cp2130(l) => l.sampled@,
            InputDriver::Unbound => self.unbound_sampled@,
        }
    }

    /// Every error returned
    pub closed spec fn error_history(&self) -> Seq<HalError> {
        self.failed@
    }

    /// Whether a driver is bound
    pub closed spec fn is_bound(&self) -> bool {
        !(self.driver is Unbound)
    }

    /// An input on a sysfs GPIO
    pub fn linux(pin: SysfsPin) -> (p: HalInputPin)
        ensures
            p.is_bound(),
            p.history() == Seq::<Option<PinState>>::empty(),
            p.error_history() == Seq::<HalError>::empty(),
    {
        HalInputPin { driver: InputDriver::Linux(SysfsInput { pin, sampled: Ghost(Seq::empty()) }), unbound_sampled: Ghost(Seq::empty()), failed: Ghost(Seq::empty()) }
    }

    /// An input on a bridge GPIO
    pub fn cp2130(pin: BridgeInput) -> (p: HalInputPin)
        ensures
            p.is_bound(),
            p.history() == Seq::<Option<PinState>>::empty(),
            p.error_history() == Seq::<HalError>::empty(),
    {
        HalInputPin { driver: InputDriver::Cp2130(BridgeInputLine { pin, sampled: Ghost(Seq::empty()) }), unbound_sampled: Ghost(Seq::empty()), failed: Ghost(Seq::empty()) }
    }

    /// An input that is not bound
    pub fn unbound() -> (p: HalInputPin)
        ensures
            !p.is_bound(),
            p.history() == Seq::<Option<PinState>>::empty(),
            p.error_history() == Seq::<HalError>::empty(),
    {
        HalInputPin { driver: InputDriver::Unbound, unbound_sampled: Ghost(Seq::empty()), failed: Ghost(Seq::empty()) }
    }

    /// Whether a driver is bound
    pub fn bound(&self) -> (r: bool)
        ensures
            r == self.is_bound(),
    {
        match self.driver {
            InputDriver::Unbound => false,
            _ => true,
        }
    }

    /// Read the level through the driver; `NoPin` exactly where none is bound,
    /// else the driver's own error. The reading is recorded.
    fn read_high(&mut self) -> (r: Result<bool, HalError>)
        ensures
            !old(self).is_bound() ==> r matches Err(HalError::NoPin),
            old(self).is_bound() ==> (r matches Err(e) ==> e is SysfsPin || e is Cp2130),
            final(self).history() == old(self).history().push(
                match r {
                    Ok(v) => Some(PinState::from_level(v)),
                    Err(_) => None,
                },
            ),
            final(self).error_history() == with_error(old(self).error_history(), r),
            final(self).is_bound() == old(self).is_bound(),
    {
        let r = match &mut self.driver {
            InputDriver::Linux(line) => match sysfs_is_high(line) {
                Ok(v) => Ok(v),
                Err(e) => Err(HalError::SysfsPin(e)),
            },
            InputDriver::Cp2130(line) => match bridge_is_high(line) {
                Ok(v) => Ok(v),
                Err(e) => Err(HalError::Cp2130(e)),
            },
            InputDriver::Unbound => {
                self.unbound_sampled = Ghost(self.unbound_sampled@.push(None));
                Err(HalError::NoPin)
            },
        };
        self.failed = Ghost(with_error(self.failed@, r));
        r
    }
}

impl InputPin for HalInputPin {
    type Error = HalError;

    open spec fn sampled(&self) -> Seq<Option<PinState>> {
        self.history()
    }

    open spec fn read_errors(&self) -> Seq<HalError> {
        self.error_history()
    }

    /// Read the level, failing with `NoPin` exactly where no pin is bound
    fn is_high(&mut self) -> (r: Result<bool, HalError>)
        ensures
            !old(self).is_bound() ==> r matches Err(HalError::NoPin),
            old(self).is_bound() ==> (r matches Err(e) ==> e is SysfsPin || e is Cp2130),
            final(self).is_bound() == old(self).is_bound(),
    {
        self.read_high()
    }

    /// The negation of the driver's `is_high` answer, failing with `NoPin`
    /// exactly where no pin is bound
    fn is_low(&mut self) -> (r: Result<bool, HalError>)
        ensures
            !old(self).is_bound() ==> r matches Err(HalError::NoPin),
            old(self).is_bound() ==> (r matches Err(e) ==> e is SysfsPin || e is Cp2130),
            final(self).is_bound() == old(self).is_bound(),
    {
        match self.read_high() {
            Ok(v) => Ok(!v),
            Err(e) => Err(e),
        }
    }
}

/// Output pin of whichever backend was selected, or none
pub struct HalOutputPin {
    driver: OutputDriver,
    unbound_driven: Ghost<Seq<(PinState, bool)>>,
    failed: Ghost<Seq<HalError>>,
}

impl HalOutputPin {
    /// Every level driven, with whether it succeeded: as the driver calls
    /// recorded them where a driver is bound, else one failed drive per call
    pub closed spec fn history(&self) -> Seq<(PinState, bool)> {
        match self.driver {
            OutputDriver::Linux(l) => l.driven@,
            OutputDriver::Cp2130(l) => l.driven@,
            OutputDriver::Unbound => self.unbound_driven@,
        }
    }

    /// Every error returned
    pub closed spec fn error_history(&self) -> Seq<HalError> {
        self.failed@
    }

    /// Whether a driver is bound
    pub closed spec fn is_bound(&self) -> bool {
        !(self.driver is Unbound)
    }

    /// An output on a sysfs GPIO
    pub fn linux(pin: SysfsPin) -> (p: HalOutputPin)
        ensures
            p.is_bound(),
            p.history() == Seq::<(PinState, bool)>::empty(),
            p.error_history() == Seq::<HalError>::empty(),
    {
        HalOutputPin { driver: OutputDriver::Linux(SysfsOutput { pin, driven: Ghost(Seq::empty()) }), unbound_driven: Ghost(Seq::empty()), failed: Ghost(Seq::empty()) }
    }

    /// An output on a bridge GPIO
    pub fn cp2130(pin: BridgeOutput) -> (p: HalOutputPin)
        ensures
            p.is_bound(),
            p.history() == Seq::<(PinState, bool)>::empty(),
            p.error_history() == Seq::<HalError>::empty(),
    {
        HalOutputPin { driver: OutputDriver::Cp2130(BridgeOutputLine { pin, driven: Ghost(Seq::empty()) }), unbound_driven: Ghost(Seq::empty()), failed: Ghost(Seq::empty()) }
    }

    /// An output that is not bound
    pub fn unbound() -> (p: HalOutputPin)
        ensures
            !p.is_bound(),
            p.history() == Seq::<(PinState, bool)>::empty(),
            p.error_history() == Seq::<HalError>::empty(),
    {
        HalOutputPin { driver: OutputDriver::Unbound, unbound_driven: Ghost(Seq::empty()), failed: Ghost(Seq::empty()) }
    }

    /// Whether a driver is bound
    pub fn bound(&self) -> (r: bool)
        ensures
            r == self.is_bound(),
    {
        match self.driver {
            OutputDriver::Unbound => false,
            _ => true,
        }
    }

    fn drive(&mut self, state: PinState) -> (r: Result<(), HalError>)
        ensures
            !old(self).is_bound() ==> r matches Err(HalError::NoPin),
            old(self).is_bound() ==> (r matches Err(e) ==> e is SysfsPin || e is Cp2130),
            final(self).history() == old(self).history().push((state, r is Ok)),
            final(self).error_history() == with_error(old(self).error_history(), r),
            final(self).is_bound() == old(self).is_bound(),
    {
        let r = match (&mut self.driver, state) {
            (OutputDriver::Linux(line), PinState::High) => match sysfs_set_high(line) {
                Ok(()) => Ok(()),
                Err(e) => Err(HalError::SysfsPin(e)),
            },
            (OutputDriver::Linux(line), PinState::Low) => match sysfs_set_low(line) {
                Ok(()) => Ok(()),
                Err(e) => Err(HalError::SysfsPin(e)),
            },
            (OutputDriver::Cp2130(line), PinState::High) => match bridge_set_high(line) {
                Ok(()) => Ok(()),
                Err(e) => Err(HalError::Cp2130(e)),
            },
            (OutputDriver::Cp2130(line), PinState::Low) => match bridge_set_low(line) {
                Ok(()) => Ok(()),
                Err(e) => Err(HalError::Cp2130(e)),
            },
            (OutputDriver::Unbound, _) => {
                self.unbound_driven = Ghost(self.unbound_driven@.push((state, false)));
                Err(HalError::NoPin)
            },
        };
        self.failed = Ghost(with_error(self.failed@, r));
        r
    }
}

impl OutputPin for HalOutputPin {
    type Error = HalError;

    open spec fn driven(&self) -> Seq<(PinState, bool)> {
        self.history()
    }

    open spec fn drive_errors(&self) -> Seq<HalError> {
        self.error_history()
    }

    /// Drive the pin high, failing with `NoPin` exactly where no pin is bound
    fn set_high(&mut self) -> (r: Result<(), HalError>)
        ensures
            !old(self).is_bound() ==> r matches Err(HalError::NoPin),
            old(self).is_bound() ==> (r matches Err(e) ==> e is SysfsPin || e is Cp2130),
            final(self).is_bound() == old(self).is_bound(),
    {
        self.drive(PinState::High)
    }

    /// Drive the pin low, failing with `NoPin` exactly where no pin is bound
    fn set_low(&mut self) -> (r: Result<(), HalError>)
        ensures
            !old(self).is_bound() ==> r matches Err(HalError::NoPin),
            old(self).is_bound() ==> (r matches Err(e) ==> e is SysfsPin || e is Cp2130),
            final(self).is_bound() == old(self).is_bound(),
    {
        self.drive(PinState::Low)
    }
}

/// The pins bound for a peripheral
pub struct HalPins {
    pub cs: HalOutputPin,
    pub reset: HalOutputPin,
    pub busy: HalInputPin,
    pub ready: HalInputPin,
    pub led0: HalOutputPin,
    pub led1: HalOutputPin,
}

/// Blocking delay source
pub struct HalDelay {
    waited: Ghost<Seq<u32>>,
}

impl HalDelay {
    /// Every wait requested
    pub closed spec fn history(&self) -> Seq<u32> {
        self.waited@
    }

    pub fn new() -> (d: HalDelay)
        ensures
            d.history() == Seq::<u32>::empty(),
    {
        HalDelay { waited: Ghost(Seq::empty()) }
    }
}

impl DelayUs for HalDelay {
    type Error = HalError;

    open spec fn waited(&self) -> Seq<u32> {
        self.history()
    }

    /// This delay source never fails
    open spec fn delay_errors(&self) -> Seq<HalError> {
        Seq::empty()
    }

    /// Block for the time given; this never fails
    fn delay_us(&mut self, us: u32) -> (r: Result<(), HalError>)
        ensures
            r is Ok,
    {
        linux_delay_us(us);
        self.waited = Ghost(self.waited@.push(us));
        Ok(())
    }
}

} // verus!
