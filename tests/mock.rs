use driver_pal::mock::{Inner, Mock, MockExec, MockTransaction};
use driver_pal::{
    Busy, DelayUs, InputPin, Operation, OutputPin, PinState, PrefixRead, PrefixWrite, Ready,
    Reset, SpiBus, Transactional,
};

#[test]
fn mock_exec_reads_expected_transfer() {
    let mut m = Mock::new();
    let mut s = m.spi();

    let prefix = vec![0xFF];
    let data = vec![0xAA, 0xBB];

    m.expect(vec![MockTransaction::spi_exec(
        &s,
        vec![
            MockExec::SpiWrite(prefix.clone()),
            MockExec::SpiTransfer(vec![0u8; 2], data.clone()),
        ],
    )]);

    let mut ops = vec![Operation::Write(prefix.clone()), Operation::Transfer(vec![0u8; 2])];
    s.exec(&mut ops).expect("read failure");

    m.finalise().unwrap();
    assert_eq!(ops[1], Operation::Transfer(data.clone()));
}

#[test]
#[should_panic]
fn test_transactional_read_expect_write() {
    let mut m = Mock::new();
    let mut s = m.spi();

    let prefix = vec![0xFF];
    let data = vec![0xAA, 0xBB];

    m.expect(vec![MockTransaction::spi_write(&s, &prefix, &data)]);

    let mut d = [0u8; 2];
    s.prefix_read(&prefix, &mut d).expect("read failure");

    m.finalise().unwrap();
    assert_eq!(&data, &d);
}

#[test]
fn test_transactional_write() {
    let mut m = Mock::new();
    let mut s = m.spi();

    let prefix = vec![0xFF];
    let data = vec![0xAA, 0xBB];

    m.expect(vec![MockTransaction::spi_write(&s, &prefix, &data)]);

    s.prefix_write(&prefix, &data).expect("write failure");

    m.finalise().unwrap();
}

#[test]
#[should_panic]
fn test_transactional_write_expect_read() {
    let mut m = Mock::new();
    let mut s = m.spi();

    let prefix = vec![0xFF];
    let data = vec![0xAA, 0xBB];

    m.expect(vec![MockTransaction::spi_read(&s, &prefix, &data)]);

    s.prefix_write(&prefix, &data).expect("write failure");

    m.finalise().unwrap();
}

#[test]
fn test_standard_write() {
    let mut m = Mock::new();
    let mut s = m.spi();

    let data = vec![0xAA, 0xBB];

    m.expect(vec![MockTransaction::write(&s, &data)]);

    s.write(&data).expect("write failure");

    m.finalise().unwrap();
}

#[test]
fn test_standard_transfer() {
    let mut m = Mock::new();
    let mut s = m.spi();

    let outgoing = vec![0xAA, 0xBB];
    let incoming = vec![0xCC, 0xDD];

    m.expect(vec![MockTransaction::transfer(&s, &outgoing, &incoming)]);

    let mut d = outgoing.clone();
    s.transfer(&mut d).expect("read failure");

    m.finalise().unwrap();
    assert_eq!(&incoming, &d);
}

#[test]
fn test_pins() {
    let mut m = Mock::new();
    let mut p = m.pin();

    m.expect(vec![
        MockTransaction::is_high(&p, true),
        MockTransaction::is_low(&p, false),
        MockTransaction::set_high(&p),
        MockTransaction::set_low(&p),
    ]);

    assert_eq!(true, p.is_high().unwrap());
    assert_eq!(false, p.is_low().unwrap());

    p.set_high().unwrap();
    p.set_low().unwrap();

    m.finalise().unwrap();
}

#[test]
#[should_panic]
fn test_incorrect_pin() {
    let mut m = Mock::new();
    let p1 = m.pin();
    let mut p2 = m.pin();

    m.expect(vec![MockTransaction::is_high(&p1, true)]);

    p2.is_high().unwrap();

    m.finalise().unwrap();
}

#[test]
fn mock_prefix_read_round_trip() {
    let mut m = Mock::new();
    let mut s = m.spi();

    m.expect(vec![MockTransaction::spi_read(&s, &[0xFF], &[0xAA, 0xBB])]);

    let mut buffer = [0u8; 2];
    s.prefix_read(&[0xFF], &mut buffer).unwrap();

    assert_eq!(buffer, [0xAA, 0xBB]);
    assert_eq!(m.finalise(), Ok(()));
}

#[test]
fn mock_read_of_other_length_keeps_buffer() {
    let mut m = Mock::new();
    let mut s = m.spi();

    m.expect(vec![MockTransaction::spi_read(&s, &[0xFF], &[0xAA, 0xBB])]);

    let mut buffer = [7u8; 3];
    s.prefix_read(&[0xFF], &mut buffer).unwrap();

    assert_eq!(buffer, [7, 7, 7]);
    assert_eq!(m.finalise(), Err(0));
}

#[test]
fn mock_write_instead_of_read_fails() {
    let mut m = Mock::new();
    let mut s = m.spi();

    m.expect(vec![MockTransaction::spi_read(&s, &[0xFF], &[0xAA, 0xBB])]);

    s.prefix_write(&[0xFF], &[0xAA, 0xBB]).unwrap();

    assert_eq!(m.finalise(), Err(0));
}

#[test]
fn mock_other_pin_fails() {
    let mut m = Mock::new();
    let p1 = m.pin();
    let mut p2 = m.pin();

    m.expect(vec![MockTransaction::is_high(&p1, true)]);

    // the expectation is of the same kind, so its answer is read, but through p2
    assert_eq!(p2.is_high(), Ok(true));
    assert_eq!(m.finalise(), Err(0));
}

#[test]
fn mock_missing_and_extra_calls_fail() {
    let mut m = Mock::new();
    let mut p = m.pin();

    m.expect(vec![MockTransaction::set_high(&p), MockTransaction::set_low(&p)]);
    p.set_high().unwrap();
    assert_eq!(m.finalise(), Err(1));

    m.expect(vec![MockTransaction::set_high(&p)]);
    p.set_high().unwrap();
    p.set_high().unwrap();
    assert_eq!(m.finalise(), Err(1));
}

#[test]
fn mock_expect_clears_history() {
    let mut m = Mock::new();
    let mut p = m.pin();

    p.set_low().unwrap();
    assert_eq!(m.finalise(), Err(0));

    m.expect(vec![MockTransaction::set_low(&p)]);
    p.set_low().unwrap();
    assert_eq!(m.finalise(), Ok(()));
}

#[test]
fn mock_unmatched_reads_default() {
    let mut m = Mock::new();
    let mut s = m.spi();
    let mut p = m.pin();

    m.expect(vec![MockTransaction::set_high(&p), MockTransaction::set_high(&p)]);

    assert_eq!(s.get_busy(), Ok(PinState::Low));
    assert_eq!(p.is_high(), Ok(false));
    assert_eq!(m.finalise(), Err(0));
}

#[test]
fn mock_spi_helpers() {
    let mut m = Mock::new();
    let mut s = m.spi();
    let mut d = m.delay();

    m.expect(vec![
        MockTransaction::busy(&s, PinState::High),
        MockTransaction::ready(&s, PinState::High),
        MockTransaction::reset(&s, PinState::Low),
        MockTransaction::delay_ms(10),
        MockTransaction::DelayUs(20),
        MockTransaction::delay_ms(30),
    ]);

    assert_eq!(s.get_busy(), Ok(PinState::High));
    assert_eq!(s.get_ready(), Ok(PinState::High));
    s.set_reset(PinState::Low).unwrap();
    s.delay_ms(10).unwrap();
    d.delay_us(20).unwrap();
    d.delay_ms(30).unwrap();

    assert_eq!(m.finalise(), Ok(()));
}

#[test]
fn mock_handles_get_distinct_identities() {
    let mut m = Mock::new();
    let s = m.spi();
    let p = m.pin();

    assert_eq!(MockTransaction::write(&s, &[1]), MockTransaction::Write(0, vec![1]));
    assert_eq!(MockTransaction::set_low(&p), MockTransaction::SetLow(1));
}

#[test]
fn mock_transaction_equality() {
    let a = MockTransaction::SpiExec(3, vec![MockExec::SpiWrite(vec![1, 2])]);
    let b = MockTransaction::SpiExec(3, vec![MockExec::SpiWrite(vec![1, 2])]);
    let c = MockTransaction::SpiExec(3, vec![MockExec::SpiTransfer(vec![1, 2], vec![0, 0])]);
    let d = MockTransaction::SpiExec(4, vec![MockExec::SpiWrite(vec![1, 2])]);
    assert!(a.same(&b));
    assert!(!a.same(&c));
    assert!(!a.same(&d));
    assert!(MockExec::SpiWrite(vec![1]).same(&MockExec::SpiWrite(vec![1])));
    assert!(!MockExec::SpiWrite(vec![1]).same(&MockExec::SpiWrite(vec![2])));
}

#[test]
fn inner_records_in_order() {
    let mut i = Inner::with_expected(vec![
        MockTransaction::Transfer(2, vec![1, 2], vec![5, 6]),
        MockTransaction::IsLow(2, true),
    ]);
    let mut buf = [1u8, 2];
    i.record_transfer(2, &mut buf);
    assert_eq!(buf, [5, 6]);
    assert!(i.record_is_low(2));
    assert_eq!(i.finalise(), Ok(()));

    let fresh = Inner::new();
    assert_eq!(fresh.finalise(), Ok(()));
}
