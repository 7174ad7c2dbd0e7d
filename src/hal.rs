//! Backend configuration: which device carries the bus, and the bus settings
//! mapped and checked before any device is opened.
use vstd::prelude::*;

use std::convert::TryFrom;

use driver_cp2130::Error as BridgeError;
use driver_cp2130::SpiClock;
use linux_embedded_hal::{SPIError, SysfsPinError};

verus! {

#[verifier::external_type_specification]
#[verifier::external_body]
pub struct ExCp2130Error(BridgeError);

/// The clock rates, in Hz, that the bridge offers
pub open spec fn is_bridge_baud(baud: int) -> bool {
    baud == 12_000_000 || baud == 6_000_000 || baud == 3_000_000 || baud == 1_500_000 || baud
        == 750_000 || baud == 375_000
}

/// Clock settings of the bridge
#[derive(PartialEq, Eq, Structural, Clone, Copy, Debug)]
pub enum BridgeClock {
    Clock12MHz,
    Clock6MHz,
    Clock3MHz,
    Clock1500KHz,
    Clock750KHz,
    Clock375KHz,
}

impl BridgeClock {
    /// The clock rate in Hz
    pub open spec fn hz(self) -> int {
        match self {
            BridgeClock::Clock12MHz => 12_000_000,
            BridgeClock::Clock6MHz => 6_000_000,
            BridgeClock::Clock3MHz => 3_000_000,
            BridgeClock::Clock1500KHz => 1_500_000,
            BridgeClock::Clock750KHz => 750_000,
            BridgeClock::Clock375KHz => 375_000,
        }
    }
}

/// Relies on `driver_cp2130::SpiClock::try_from`, which maps each of the
/// bridge's clock rates to the setting of that rate and refuses any other value
/// with an error; each setting becomes the `BridgeClock` of the same rate.
#[verifier::external_body]
fn bridge_clock(baud: usize) -> (r: Result<BridgeClock, BridgeError>)
    ensures
        r is Ok <==> is_bridge_baud(baud as int),
        r matches Ok(c) ==> c.hz() == baud,
{
    match SpiClock::try_from(baud) {
        Ok(SpiClock::Clock12Mhz) => Ok(BridgeClock::Clock12MHz),
        Ok(SpiClock::Clock6MHz) => Ok(BridgeClock::Clock6MHz),
        Ok(SpiClock::Clock3MHz) => Ok(BridgeClock::Clock3MHz),
        Ok(SpiClock::Clock1_5MHz) => Ok(BridgeClock::Clock1500KHz),
        Ok(SpiClock::Clock750KHz) => Ok(BridgeClock::Clock750KHz),
        Ok(SpiClock::Clock375MHz) => Ok(BridgeClock::Clock375KHz),
        Err(e) => Err(e),
    }
}

/// Errors of backend configuration and dispatch
#[derive(Debug)]
pub enum HalError {
    /// No backend, or more than one, was selected
    InvalidConfig,
    /// The SPI mode is not one of 0, 1, 2 and 3
    InvalidSpiMode,
    /// The pin is not bound
    NoPin,
    /// No driver is bound
    NoDriver,
    /// The USB bridge driver reported a failure
    Cp2130(BridgeError),
    /// The Linux spidev driver reported a failure
    Spi(SPIError),
    /// The Linux sysfs GPIO driver reported a failure
    SysfsPin(SysfsPinError),
}

impl HalError {
    /// Whether the error carries, or stands for, an underlying driver error
    pub fn is_inner(&self) -> (r: bool)
        ensures
            r == !(self is InvalidConfig || self is InvalidSpiMode || self is NoPin),
    {
        match self {
            HalError::InvalidConfig | HalError::InvalidSpiMode | HalError::NoPin => false,
            _ => true,
        }
    }

    /// Whether the error says that no pin is bound
    pub fn is_no_pin(&self) -> (r: bool)
        ensures
            r == self is NoPin,
    {
        match self {
            HalError::NoPin => true,
            _ => false,
        }
    }
}

/// SPI bus settings
#[derive(Debug, Clone)]
pub struct SpiConfig {
    /// Clock rate in Hz
    pub baud: u32,
    /// SPI mode, 0 to 3
    pub mode: u32,
}

/// Pin assignments; busy, ready and the two LEDs are optional
#[derive(Debug, Clone)]
pub struct PinConfig {
    pub chip_select: u64,
    pub reset: u64,
    pub busy: Option<u64>,
    pub ready: Option<u64>,
    pub led0: Option<u64>,
    pub led1: Option<u64>,
}

/// Device configuration: exactly one of the two device sources is to be given
#[derive(Debug)]
pub struct DeviceConfig {
    /// Path of a Linux spidev device
    pub spi_dev: Option<String>,
    /// Index of a USB bridge device
    pub cp2130_dev: Option<usize>,
    pub spi: SpiConfig,
    pub pins: PinConfig,
}

/// Kinds of backend
#[derive(PartialEq, Eq, Structural, Clone, Copy, Debug)]
pub enum Backend {
    Linux,
    Cp2130,
}

/// Clock polarity and phase
#[derive(PartialEq, Eq, Structural, Clone, Copy, Debug)]
pub enum SpiMode {
    Mode0,
    Mode1,
    Mode2,
    Mode3,
}

/// The backend that the device sources select: exactly one must be given
pub open spec fn backend_choice(linux: bool, bridge: bool) -> Option<Backend> {
    if linux && !bridge {
        Some(Backend::Linux)
    } else if bridge && !linux {
        Some(Backend::Cp2130)
    } else {
        None
    }
}

/// The SPI mode that a configuration value names
pub open spec fn mode_of(mode: u32) -> Option<SpiMode> {
    if mode == 0 {
        Some(SpiMode::Mode0)
    } else if mode == 1 {
        Some(SpiMode::Mode1)
    } else if mode == 2 {
        Some(SpiMode::Mode2)
    } else if mode == 3 {
        Some(SpiMode::Mode3)
    } else {
        None
    }
}

/// Select the backend from the device sources of the configuration
pub fn select_backend(config: &DeviceConfig) -> (r: Result<Backend, HalError>)
    ensures
        match backend_choice(config.spi_dev is Some, config.cp2130_dev is Some) {
            Some(b) => r == Ok::<Backend, HalError>(b),
            None => r matches Err(HalError::InvalidConfig),
        },
{
    match (&config.spi_dev, &config.cp2130_dev) {
        (Some(_), None) => Ok(Backend::Linux),
        (None, Some(_)) => Ok(Backend::Cp2130),
        _ => Err(HalError::InvalidConfig),
    }
}

/// Map a configuration mode value, refusing one outside 0 to 3
pub fn spi_mode(mode: u32) -> (r: Result<SpiMode, HalError>)
    ensures
        match mode_of(mode) {
            Some(m) => r == Ok::<SpiMode, HalError>(m),
            None => r matches Err(HalError::InvalidSpiMode),
        },
{
    match mode {
        0 => Ok(SpiMode::Mode0),
        1 => Ok(SpiMode::Mode1),
        2 => Ok(SpiMode::Mode2),
        3 => Ok(SpiMode::Mode3),
        _ => Err(HalError::InvalidSpiMode),
    }
}

/// Turn the bus settings into the bridge's clock setting, refusing a rate
/// that the bridge does not offer
pub fn bridge_spi_clock(config: &SpiConfig) -> (r: Result<BridgeClock, HalError>)
    ensures
        r is Ok <==> is_bridge_baud(config.baud as int),
        r matches Ok(c) ==> c.hz() == config.baud,
        r is Err ==> r matches Err(HalError::Cp2130(_)),
{
    match bridge_clock(config.baud as usize) {
        Ok(c) => Ok(c),
        Err(e) => Err(HalError::Cp2130(e)),
    }
}

/// What opening the device takes, settled and checked before anything is opened
pub enum DevicePlan {
    /// Open the spidev device at the configured path in the mode
    Linux { mode: SpiMode },
    /// Open the bridge at the index in the mode, with the clock setting
    Cp2130 { index: usize, mode: SpiMode, clock: BridgeClock },
}

/// Check the configuration and settle how the device is to be opened: the
/// device sources first, then the mode, then the clock rate where the bridge
/// is selected
pub fn plan(config: &DeviceConfig) -> (r: Result<DevicePlan, HalError>)
    ensures
        match backend_choice(config.spi_dev is Some, config.cp2130_dev is Some) {
            None => r matches Err(HalError::InvalidConfig),
            Some(backend) => match mode_of(config.spi.mode) {
                None => r matches Err(HalError::InvalidSpiMode),
                Some(m) => match backend {
                    Backend::Linux => r matches Ok(DevicePlan::Linux { mode }) && mode == m,
                    Backend::Cp2130 => if is_bridge_baud(config.spi.baud as int) {
                        r matches Ok(DevicePlan::Cp2130 { index, mode, clock }) && config.cp2130_dev
                            == Some(index) && mode == m && clock.hz() == config.spi.baud
                    } else {
                        r matches Err(HalError::Cp2130(_))
                    },
                },
            },
        },
{
    let backend = match select_backend(config) {
        Ok(b) => b,
        Err(e) => return Err(e),
    };
    let mode = match spi_mode(config.spi.mode) {
        Ok(m) => m,
        Err(e) => return Err(e),
    };
    match backend {
        Backend::Linux => Ok(DevicePlan::Linux { mode }),
        Backend::Cp2130 => {
            let index = match config.cp2130_dev {
                Some(i) => i,
                None => 0,
            };
            match bridge_spi_clock(&config.spi) {
                Ok(clock) => Ok(DevicePlan::Cp2130 { index, mode, clock }),
                Err(e) => Err(e),
            }
        },
    }
}

/// The verdict on a configuration depends on nothing but whether each of the two
/// device sources is given, and it is a backend exactly where one of them is.
pub proof fn lemma_selection_exactly_one(linux: bool, bridge: bool)
    ensures
        backend_choice(linux, bridge) is Some <==> linux != bridge,
        linux && bridge ==> backend_choice(linux, bridge) is None,
        !linux && !bridge ==> backend_choice(linux, bridge) is None,
{
}

} // verus!
