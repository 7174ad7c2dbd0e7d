use driver_pal::mock::{Delay, Mock, MockTransaction, Pin, Spi};
use driver_pal::wrapper::Wrapper;
use driver_pal::{
    BusEvent, Busy, DelayUs, Error, InputPin, Operation, OutputPin, PinState, PrefixRead, PrefixWrite, Ready, Reset,
    SpiBus, Transactional,
};

use vstd::seq::Seq;

use std::cell::RefCell;
use std::rc::Rc;

/// Everything seen on the wire, in order
type Wire = Rc<RefCell<Vec<String>>>;

/// A bus that fails the step with the given number (counted from zero)
struct FlakyBus {
    wire: Wire,
    steps: usize,
    fail_at: Option<usize>,
}

impl FlakyBus {
    fn step(&mut self, what: String) -> Result<(), u8> {
        let n = self.steps;
        self.steps += 1;
        if Some(n) == self.fail_at {
            self.wire.borrow_mut().push(format!("{} failed", what));
            Err(1)
        } else {
            self.wire.borrow_mut().push(what);
            Ok(())
        }
    }
}

// The history functions of the capability traits belong to their
// specifications; nothing calls them when the code runs.

impl SpiBus for FlakyBus {
    type Error = u8;

    fn issued(&self) -> Seq<BusEvent> {
        unreachable!()
    }

    fn bus_errors(&self) -> Seq<u8> {
        unreachable!()
    }

    fn write(&mut self, data: &[u8]) -> Result<(), u8> {
        self.step(format!("write {:?}", data))
    }

    fn transfer_in_place(&mut self, data: &mut [u8]) -> Result<(), u8> {
        let r = self.step(format!("transfer {:?}", data));
        for b in data.iter_mut() {
            *b = b.wrapping_add(1);
        }
        r
    }
}

/// A chip-select pin that fails the drives with the given levels
struct FlakyPin {
    wire: Wire,
    fail_low: bool,
    fail_high: bool,
}

impl OutputPin for FlakyPin {
    type Error = char;

    fn driven(&self) -> Seq<(PinState, bool)> {
        unreachable!()
    }

    fn drive_errors(&self) -> Seq<char> {
        unreachable!()
    }

    fn set_high(&mut self) -> Result<(), char> {
        self.wire.borrow_mut().push("cs high".to_string());
        if self.fail_high {
            Err('h')
        } else {
            Ok(())
        }
    }

    fn set_low(&mut self) -> Result<(), char> {
        self.wire.borrow_mut().push("cs low".to_string());
        if self.fail_low {
            Err('l')
        } else {
            Ok(())
        }
    }
}

/// An input line that reads low
struct Line;

impl InputPin for Line {
    type Error = char;

    fn sampled(&self) -> Seq<Option<PinState>> {
        unreachable!()
    }

    fn read_errors(&self) -> Seq<char> {
        unreachable!()
    }

    fn is_high(&mut self) -> Result<bool, char> {
        Ok(false)
    }

    fn is_low(&mut self) -> Result<bool, char> {
        Ok(true)
    }
}

struct NoDelay;

impl DelayUs for NoDelay {
    type Error = ();

    fn waited(&self) -> Seq<u32> {
        unreachable!()
    }

    fn delay_errors(&self) -> Seq<()> {
        unreachable!()
    }

    fn delay_us(&mut self, _us: u32) -> Result<(), ()> {
        Ok(())
    }
}

type Flaky = Wrapper<FlakyBus, FlakyPin, Line, Line, FlakyPin, NoDelay>;

fn flaky(fail_at: Option<usize>, fail_low: bool, fail_high: bool) -> (Flaky, Wire) {
    let wire: Wire = Rc::new(RefCell::new(Vec::new()));
    let bus = FlakyBus { wire: wire.clone(), steps: 0, fail_at };
    let cs = FlakyPin { wire: wire.clone(), fail_low, fail_high };
    (Wrapper::new(bus, cs, None, None, None, NoDelay), wire)
}

fn seen(wire: &Wire) -> Vec<String> {
    wire.borrow().clone()
}

type MockWrapper = Wrapper<Spi, Pin, Pin, Pin, Pin, Delay>;

#[test]
fn wrapper_prefix_write_brackets_chip_select() {
    let mut m = Mock::new();
    let s = m.spi();
    let cs = m.pin();
    m.expect(vec![
        MockTransaction::set_low(&cs),
        MockTransaction::write(&s, &[0x01]),
        MockTransaction::write(&s, &[0xAA, 0xBB]),
        MockTransaction::set_high(&cs),
    ]);
    let d = m.delay();
    let mut w: MockWrapper = Wrapper::new(s, cs, None, None, None, d);

    w.prefix_write(&[0x01], &[0xAA, 0xBB]).unwrap();

    assert_eq!(m.finalise(), Ok(()));
}

#[test]
fn wrapper_prefix_read_fills_buffer() {
    let mut m = Mock::new();
    let s = m.spi();
    let cs = m.pin();
    m.expect(vec![
        MockTransaction::set_low(&cs),
        MockTransaction::write(&s, &[0x80]),
        MockTransaction::transfer(&s, &[0, 0], &[0x12, 0x34]),
        MockTransaction::set_high(&cs),
    ]);
    let d = m.delay();
    let mut w: MockWrapper = Wrapper::new(s, cs, None, None, None, d);

    let mut buf = [0u8; 2];
    w.prefix_read(&[0x80], &mut buf).unwrap();

    assert_eq!(buf, [0x12, 0x34]);
    assert_eq!(m.finalise(), Ok(()));
}

#[test]
fn wrapper_exec_keeps_order() {
    let mut m = Mock::new();
    let s = m.spi();
    let cs = m.pin();
    m.expect(vec![
        MockTransaction::set_low(&cs),
        MockTransaction::write(&s, &[1]),
        MockTransaction::transfer(&s, &[2, 3], &[4, 5]),
        MockTransaction::write(&s, &[6]),
        MockTransaction::set_high(&cs),
    ]);
    let d = m.delay();
    let mut w: MockWrapper = Wrapper::new(s, cs, None, None, None, d);

    let mut ops = vec![
        Operation::Write(vec![1]),
        Operation::Transfer(vec![2, 3]),
        Operation::Write(vec![6]),
    ];
    w.exec(&mut ops).unwrap();

    assert_eq!(ops[1], Operation::Transfer(vec![4, 5]));
    assert_eq!(m.finalise(), Ok(()));
}

#[test]
fn wrapper_write_and_transfer() {
    let mut m = Mock::new();
    let s = m.spi();
    let cs = m.pin();
    m.expect(vec![
        MockTransaction::set_low(&cs),
        MockTransaction::write(&s, &[9, 8]),
        MockTransaction::set_high(&cs),
        MockTransaction::set_low(&cs),
        MockTransaction::transfer(&s, &[7], &[3]),
        MockTransaction::set_high(&cs),
    ]);
    let d = m.delay();
    let mut w: MockWrapper = Wrapper::new(s, cs, None, None, None, d);

    w.write(&[9, 8]).unwrap();
    let mut buf = [7u8];
    w.transfer_in_place(&mut buf).unwrap();

    assert_eq!(buf, [3]);
    assert_eq!(m.finalise(), Ok(()));
}

#[test]
fn wrapper_exec_stops_at_first_failure() {
    let (mut w, wire) = flaky(Some(1), false, false);
    let mut ops = vec![
        Operation::Write(vec![1]),
        Operation::Write(vec![2]),
        Operation::Transfer(vec![3]),
    ];

    assert_eq!(w.transaction(&mut ops), Err(Error::Spi(1)));
    assert_eq!(
        seen(&wire),
        vec!["cs low", "write [1]", "write [2] failed", "cs high"]
    );
    assert_eq!(ops[2], Operation::Transfer(vec![3]));
}

#[test]
fn wrapper_prefix_failure_skips_data() {
    let (mut w, wire) = flaky(Some(0), false, false);
    assert_eq!(w.prefix_write(&[1], &[2]), Err(Error::Spi(1)));
    assert_eq!(seen(&wire), vec!["cs low", "write [1] failed", "cs high"]);

    let (mut w, wire) = flaky(Some(0), false, false);
    let mut buf = [5u8];
    assert_eq!(w.prefix_read(&[1], &mut buf), Err(Error::Spi(1)));
    assert_eq!(buf, [5]);
    assert_eq!(seen(&wire), vec!["cs low", "write [1] failed", "cs high"]);
}

#[test]
fn wrapper_failed_assert_touches_no_bus() {
    let (mut w, wire) = flaky(None, true, false);
    assert_eq!(w.write(&[1]), Err(Error::Pin('l')));
    assert_eq!(seen(&wire), vec!["cs low"]);
}

#[test]
fn wrapper_release_failure_is_reported() {
    let (mut w, wire) = flaky(None, false, true);
    assert_eq!(w.write(&[1]), Err(Error::Pin('h')));
    assert_eq!(seen(&wire), vec!["cs low", "write [1]", "cs high"]);
    assert_eq!(w.take_cs_fault(), None);
}

#[test]
fn wrapper_bus_failure_takes_precedence_and_release_failure_is_kept() {
    let (mut w, wire) = flaky(Some(0), false, true);
    assert_eq!(w.write(&[1]), Err(Error::Spi(1)));
    assert_eq!(seen(&wire), vec!["cs low", "write [1] failed", "cs high"]);
    assert_eq!(w.take_cs_fault(), Some('h'));
    assert_eq!(w.take_cs_fault(), None);
}

#[test]
fn wrapper_without_optional_pins_reports_no_pin() {
    let (mut w, wire) = flaky(None, false, false);
    assert_eq!(w.get_busy(), Err(Error::NoPin));
    assert_eq!(w.get_ready(), Err(Error::NoPin));
    assert_eq!(w.set_reset(PinState::High), Err(Error::NoPin));
    assert!(seen(&wire).is_empty());
}

#[test]
fn wrapper_forwards_optional_pins() {
    let mut m = Mock::new();
    let s = m.spi();
    let cs = m.pin();
    let busy = m.pin();
    let ready = m.pin();
    let reset = m.pin();
    let d = m.delay();
    m.expect(vec![
        MockTransaction::is_high(&busy, true),
        MockTransaction::is_high(&ready, false),
        MockTransaction::set_low(&reset),
        MockTransaction::DelayUs(5),
    ]);
    let mut w: MockWrapper = Wrapper::new(s, cs, Some(reset), Some(busy), Some(ready), d);

    assert_eq!(w.get_busy(), Ok(PinState::High));
    assert_eq!(w.get_ready(), Ok(PinState::Low));
    assert_eq!(w.set_reset(PinState::Low), Ok(()));
    assert_eq!(w.delay_us(5), Ok(()));
    assert_eq!(m.finalise(), Ok(()));
}

#[test]
fn wrapper_inner_spi_bypasses_chip_select() {
    let mut m = Mock::new();
    let s = m.spi();
    let cs = m.pin();
    m.expect(vec![MockTransaction::write(&s, &[4])]);
    let d = m.delay();
    let mut w: MockWrapper = Wrapper::new(s, cs, None, None, None, d);

    w.inner_spi().write(&[4]).unwrap();
    assert_eq!(m.finalise(), Ok(()));
}
