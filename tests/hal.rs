use driver_pal::hal::{
    bridge_spi_clock, plan, BridgeClock, select_backend, spi_mode, Backend, DeviceConfig, DevicePlan, HalError, PinConfig,
    SpiConfig, SpiMode,
};
use driver_pal::backend::{HalDelay, HalInputPin, HalOutputPin};
use driver_pal::{report_status, DelayUs, Error, InputPin, OutputPin, PinState};

fn config(spi_dev: Option<&str>, cp2130_dev: Option<usize>, baud: u32, mode: u32) -> DeviceConfig {
    DeviceConfig {
        spi_dev: spi_dev.map(|s| s.to_string()),
        cp2130_dev,
        spi: SpiConfig { baud, mode },
        pins: PinConfig {
            chip_select: 16,
            reset: 17,
            busy: None,
            ready: None,
            led0: None,
            led1: None,
        },
    }
}

#[test]
fn backend_needs_exactly_one_source() {
    let none = config(None, None, 1_000_000, 0);
    let both = config(Some("/dev/spidev0.0"), Some(0), 1_000_000, 0);
    for _ in 0..2 {
        assert!(matches!(select_backend(&none), Err(HalError::InvalidConfig)));
        assert!(matches!(select_backend(&both), Err(HalError::InvalidConfig)));
        assert!(matches!(plan(&none), Err(HalError::InvalidConfig)));
        assert!(matches!(plan(&both), Err(HalError::InvalidConfig)));
    }
    let linux = config(Some("/dev/spidev0.0"), None, 1_000_000, 0);
    let bridge = config(None, Some(1), 1_000_000, 0);
    assert_eq!(select_backend(&linux).unwrap(), Backend::Linux);
    assert_eq!(select_backend(&bridge).unwrap(), Backend::Cp2130);
}

#[test]
fn spi_mode_values() {
    assert_eq!(spi_mode(0).unwrap(), SpiMode::Mode0);
    assert_eq!(spi_mode(1).unwrap(), SpiMode::Mode1);
    assert_eq!(spi_mode(2).unwrap(), SpiMode::Mode2);
    assert_eq!(spi_mode(3).unwrap(), SpiMode::Mode3);
    assert!(matches!(spi_mode(4), Err(HalError::InvalidSpiMode)));
}

#[test]
fn plan_checks_backend_settings() {
    let linux = config(Some("/dev/spidev0.0"), None, 1_000_000, 2);
    assert!(matches!(plan(&linux), Ok(DevicePlan::Linux { mode: SpiMode::Mode2 })));

    let bad_mode = config(Some("/dev/spidev0.0"), None, 1_000_000, 7);
    assert!(matches!(plan(&bad_mode), Err(HalError::InvalidSpiMode)));

    let bridge = config(None, Some(3), 12_000_000, 0);
    assert!(matches!(
        plan(&bridge),
        Ok(DevicePlan::Cp2130 { index: 3, mode: SpiMode::Mode0, clock: BridgeClock::Clock12MHz })
    ));

    let bad_baud = config(None, Some(3), 1_000_000, 0);
    assert!(matches!(plan(&bad_baud), Err(HalError::Cp2130(_))));
}

#[test]
fn hal_error_classes() {
    assert!(!HalError::InvalidConfig.is_inner());
    assert!(!HalError::InvalidSpiMode.is_inner());
    assert!(!HalError::NoPin.is_inner());
    assert!(HalError::NoDriver.is_inner());
    assert!(HalError::NoPin.is_no_pin());
    assert!(!HalError::NoDriver.is_no_pin());
}

#[test]
fn pin_state_from_level() {
    assert_eq!(PinState::from_high(true), PinState::High);
    assert_eq!(PinState::from_high(false), PinState::Low);
    let e: Error<u8, u8, u8> = Error::Aborted;
    assert_eq!(e.clone(), Error::Aborted);
}

#[test]
fn unbound_backend_pins_report_no_pin() {
    let mut input = HalInputPin::unbound();
    assert!(matches!(input.is_high(), Err(HalError::NoPin)));
    assert!(matches!(input.is_low(), Err(HalError::NoPin)));

    let mut output = HalOutputPin::unbound();
    assert!(matches!(output.set_high(), Err(HalError::NoPin)));
    assert!(matches!(output.set_low(), Err(HalError::NoPin)));
}

#[test]
fn backend_delay_returns() {
    let mut d = HalDelay::new();
    assert!(d.delay_us(1).is_ok());
}

#[test]
fn status_codes_keep_the_error() {
    let mut last: Option<u8> = None;
    assert_eq!(report_status(Ok(()), &mut last), 0);
    assert_eq!(last, None);
    assert_eq!(report_status(Err(4), &mut last), -1);
    assert_eq!(last, Some(4));
    assert_eq!(report_status(Ok(()), &mut last), 0);
    assert_eq!(last, Some(4));
}

#[test]
fn bridge_clock_rates() {
    let clock = |baud: u32| bridge_spi_clock(&SpiConfig { baud, mode: 0 });
    assert_eq!(clock(12_000_000).unwrap(), BridgeClock::Clock12MHz);
    assert_eq!(clock(6_000_000).unwrap(), BridgeClock::Clock6MHz);
    assert_eq!(clock(3_000_000).unwrap(), BridgeClock::Clock3MHz);
    assert_eq!(clock(1_500_000).unwrap(), BridgeClock::Clock1500KHz);
    assert_eq!(clock(750_000).unwrap(), BridgeClock::Clock750KHz);
    assert_eq!(clock(375_000).unwrap(), BridgeClock::Clock375KHz);
    assert!(matches!(clock(1_000_000), Err(HalError::Cp2130(_))));
    assert!(matches!(clock(0), Err(HalError::Cp2130(_))));
}

#[test]
fn unbound_pins_report_bound_state() {
    assert!(!HalInputPin::unbound().bound());
    assert!(!HalOutputPin::unbound().bound());
}
