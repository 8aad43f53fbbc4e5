use embassy_gd32_core::usart::{UartBuffered, UartStatus};
use embassy_gd32_core::waker::Poll;

fn tx_ready() -> UartStatus {
    UartStatus { rbne: false, tbe: true, overrun: false, noise: false, framing: false, parity: false }
}

fn received() -> UartStatus {
    UartStatus { rbne: true, tbe: false, overrun: false, noise: false, framing: false, parity: false }
}

#[test]
fn write_drains_in_order_and_flush_waits_for_last_byte() {
    let mut u = UartBuffered::new(8, 8);
    let writer = 1;
    assert!(!u.tx_interrupt_enabled());
    assert_eq!(u.poll_write(&[0x41, 0x42, 0x43], writer), Poll::Ready(Ok(3)));
    assert!(u.tx_interrupt_enabled());
    let mut sent = Vec::new();
    for _ in 0..3 {
        assert_eq!(u.poll_flush(writer), Poll::Pending);
        let a = u.on_interrupt(tx_ready(), 0);
        assert_eq!(a.wake_tx, Some(writer));
        assert!(!a.disable_tx_interrupt);
        sent.push(a.transmit.unwrap());
    }
    assert_eq!(sent, vec![0x41, 0x42, 0x43]);
    assert_eq!(u.poll_flush(writer), Poll::Ready(Ok(())));
    let a = u.on_interrupt(tx_ready(), 0);
    assert_eq!(a.transmit, None);
    assert!(a.disable_tx_interrupt);
    assert!(!u.tx_interrupt_enabled());
}

#[test]
fn read_parks_until_a_byte_arrives() {
    let mut u = UartBuffered::new(4, 4);
    let reader = 2;
    let mut buf = [0u8; 8];
    assert_eq!(u.poll_read(&mut buf, reader), Poll::Pending);
    let a = u.on_interrupt(received(), 0x55);
    assert_eq!(a.wake_rx, Some(reader));
    assert!(!a.rx_dropped);
    u.on_interrupt(received(), 0x66);
    assert_eq!(u.poll_read(&mut buf, reader), Poll::Ready(Ok(2)));
    assert_eq!(&buf[..2], &[0x55, 0x66]);
}

#[test]
fn full_receive_ring_drops_and_line_errors_are_reported() {
    let mut u = UartBuffered::new(2, 2);
    u.on_interrupt(received(), 1);
    u.on_interrupt(received(), 2);
    let bad = UartStatus { noise: true, ..received() };
    let a = u.on_interrupt(bad, 3);
    assert!(a.rx_dropped);
    assert!(a.line_error);
    let mut buf = [0u8; 1];
    assert_eq!(u.poll_read(&mut buf, 4), Poll::Ready(Ok(1)));
    assert_eq!(buf, [1]);
}

#[test]
fn write_to_full_ring_parks() {
    let mut u = UartBuffered::new(2, 2);
    assert_eq!(u.poll_write(&[1, 2, 3], 9), Poll::Ready(Ok(2)));
    assert_eq!(u.poll_write(&[3], 9), Poll::Pending);
    let a = u.on_interrupt(tx_ready(), 0);
    assert_eq!(a.transmit, Some(1));
    assert_eq!(a.wake_tx, Some(9));
    assert_eq!(u.poll_write(&[3], 9), Poll::Ready(Ok(1)));
}
