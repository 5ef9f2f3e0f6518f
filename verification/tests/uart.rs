use npcm400::error::ErrorCode;
use npcm400::uart::{Parameters, Parity, StopBits, Uart, UartInterrupt, UarteRegisters, Width};

fn regs() -> UarteRegisters {
    UarteRegisters { uictrl: 0, ufrs: 0x11, ubaud: 0, upsr: 0 }
}

#[test]
fn baud_115200_from_96mhz() {
    let u = Uart::new_uart1(96_000_000);
    assert_eq!(u.set_baud_rate_prescaler(115_200, 96_000_000), (0x08, 0x33));
    let mut r = regs();
    u.initialize(115_200, &mut r);
    assert_eq!((r.upsr, r.ubaud, r.ufrs), (0x08, 0x33, 0));
}

#[test]
fn baud_9600_uses_high_divisor_bits() {
    let u = Uart::new_uart1(96_000_000);
    assert_eq!(u.set_baud_rate_prescaler(9_600, 96_000_000), (0x0A, 0x70));
    assert_eq!(u.set_baud_rate_prescaler(115_200, 48_000_000), (0x08, 0x19));
}

#[test]
fn configure_refuses_unsupported_framing() {
    let u = Uart::new_uart1(96_000_000);
    let ok = Parameters { baud_rate: 115_200, width: Width::Eight, parity: Parity::NoParity, stop_bits: StopBits::One, hw_flow_control: false };
    let mut r = regs();
    assert_eq!(u.configure(ok, &mut r), Ok(()));
    assert_eq!((r.upsr, r.ubaud), (0x08, 0x33));
    let mut r2 = regs();
    assert_eq!(u.configure(Parameters { parity: Parity::Odd, ..ok }, &mut r2), Err(ErrorCode::NOSUPPORT));
    assert_eq!(u.configure(Parameters { stop_bits: StopBits::Two, ..ok }, &mut r2), Err(ErrorCode::NOSUPPORT));
    assert_eq!(u.configure(Parameters { hw_flow_control: true, ..ok }, &mut r2), Err(ErrorCode::NOSUPPORT));
    // refused framing is refused whatever the rate
    assert_eq!(u.configure(Parameters { parity: Parity::Even, baud_rate: 0, ..ok }, &mut r2), Err(ErrorCode::NOSUPPORT));
    assert_eq!(r2, regs());
}

#[test]
fn newline_gets_carriage_return() {
    let u = Uart::new_uart1(96_000_000);
    assert_eq!(u.fifo_fill(b"a\nb\n", 4), Some(b"a\r\nb\r\n".to_vec()));
    assert_eq!(u.fifo_fill(b"a\nb\n", 2), Some(b"a\r\n".to_vec()));
    assert_eq!(u.fifo_fill(b"abc", 0), None);
    assert_eq!(u.fifo_fill(b"", 5), None);
}

#[test]
fn buffer_length_checks() {
    let mut u = Uart::new_uart1(96_000_000);
    assert_eq!(u.transmit_buffer(b"ab\nc", 5, 0x00), (0x20, Err(ErrorCode::SIZE)));
    assert_eq!(u.tx_len, 0);
    assert_eq!(u.transmit_buffer(b"ab\nc", 0, 0x40), (0x60, Err(ErrorCode::SIZE)));
    assert_eq!(u.transmit_buffer(b"ab\nc", 4, 0x00), (0x20, Ok(vec![b'a', b'b', 13, 10, b'c'])));
    assert_eq!(u.tx_len, 4);
    assert_eq!(u.transmit_buffer(b"ab\nc", 2, 0x20), (0x20, Ok(vec![b'a', b'b'])));
    assert_eq!(u.tx_len, 2);
    assert_eq!(u.receive_buffer(0, 4), Err(ErrorCode::SIZE));
    assert_eq!(u.receive_buffer(8, 6), Ok(()));
    assert_eq!(u.bytes_to_read(3, 8), 3);
    assert_eq!(u.bytes_to_read(10, 5), 5);
    assert_eq!(u.bytes_to_read(10, 8), 6);
    assert_eq!(u.fifo_read_chunk(16, 10, 4), 6);
    assert_eq!(u.fifo_read_chunk(2, 10, 4), 2);
}

#[test]
fn status_and_interrupt_bits() {
    let u = Uart::new_uart1(96_000_000);
    assert_eq!(u.err_check(0x07), 0x07);
    assert_eq!(u.err_check(0x04), 0x01);
    assert_eq!(u.err_check(0x01), 0x02);
    assert!(u.rx_fifo_ready(0x01));
    assert!(!u.rx_fifo_ready(0x20));
    assert_eq!(u.irq_tx_enable(0), 0x20);
    assert_eq!(u.irq_rx_enable(0x20), 0x60);
    assert_eq!(u.irq_err_enable(0), 0x80);
    assert_eq!(u.irq_tx_disable(0xE0), 0xC0);
    assert_eq!(u.irq_rx_disable(0xE0), 0xA0);
    assert_eq!(u.irq_err_disable(0xE0), 0x60);
    assert!(u.irq_tx_complete(0x00));
    assert!(!u.irq_tx_complete(0x40));
    assert_eq!(u.transmit_word(1), Err(ErrorCode::FAIL));
    assert_eq!(u.receive_abort(), Err(ErrorCode::FAIL));
}

#[test]
fn interrupt_reports_sent_and_reads_what_is_there() {
    let mut u = Uart::new_uart1(96_000_000);
    assert_eq!(u.transmit_buffer(b"12345678", 5, 0).1, Ok(b"12345".to_vec()));
    assert_eq!(u.receive_buffer(10, 10), Ok(()));
    // transmit FIFO empty, three bytes received, buffer of four bytes
    let r = u.handle_interrupt(0x00, 0x03, 0x60, Some(4));
    assert_eq!(r, UartInterrupt { uictrl: 0x00, transmitted: Some(5), received: Some(3) });
    // transmit FIFO full, receive FIFO holds 20 (capped at 16), buffer of 12 bytes
    let r = u.handle_interrupt(0x10, 0x14, 0x60, Some(12));
    assert_eq!(r, UartInterrupt { uictrl: 0x20, transmitted: None, received: Some(10) });
    // data but no buffer: the interrupt is disabled and nothing is read
    let r = u.handle_interrupt(0x10, 0x01, 0x40, None);
    assert_eq!(r, UartInterrupt { uictrl: 0x00, transmitted: None, received: None });
}

#[test]
fn invalid_baud_rates_are_refused() {
    let u = Uart::new_uart1(96_000_000);
    let mut r = regs();
    assert_eq!(u.try_set_baud_rate(0, 96_000_000, &mut r), Err(ErrorCode::INVAL));
    assert_eq!(u.try_set_baud_rate(4_000_000, 96_000_000, &mut r), Err(ErrorCode::INVAL));
    assert_eq!((r.upsr, r.ubaud, r.ufrs), (0, 0, 0x11));
    assert_eq!(u.try_set_baud_rate(1200, 96_000_000, &mut r), Ok(()));
    assert_eq!((r.upsr, r.ubaud, r.ufrs), (0x0B, 0x87, 0));
}
