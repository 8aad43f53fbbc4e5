use embassy_gd32_core::dma::{
    channel_flags, channel_registers, control_word, flag_clear_mask, read, write_repeated, ChannelFlags,
    ChannelState, Direction, Error, TransferRequest, Width,
};
use embassy_gd32_core::waker::{poll_flag, Poll, WakerSlot};

const QUIET: ChannelFlags = ChannelFlags { complete: false, half: false, error: false };
const DONE: ChannelFlags = ChannelFlags { complete: true, half: false, error: false };
const FAILED: ChannelFlags = ChannelFlags { complete: false, half: false, error: true };

#[test]
fn register_twice_is_a_no_op() {
    let mut s = WakerSlot::new();
    assert!(!s.is_registered());
    s.register(7);
    s.register(7);
    assert!(s.accepts(7));
    assert!(!s.accepts(8));
    assert_eq!(s.signal(), Some(7));
    assert_eq!(s.signal(), None);
}

#[test]
fn signal_without_waker_is_dropped() {
    let mut s = WakerSlot::new();
    assert_eq!(s.signal(), None);
    assert!(!s.is_registered());
    assert!(s.accepts(1));
}

#[test]
fn signal_then_register_still_wakes() {
    let mut ch = ChannelState::new();
    // The interrupt comes first, while nobody is parked: dropped.
    assert_eq!(ch.on_interrupt(), None);
    // The next poll does not see the flag yet: it parks.
    assert_eq!(ch.poll(QUIET, 5), Poll::Pending);
    // The next interrupt wakes the parked task, whose poll sees the flag.
    assert_eq!(ch.on_interrupt(), Some(5));
    assert_eq!(ch.poll(DONE, 5), Poll::Ready(Ok(())));
}

#[test]
fn dma_poll_outcomes() {
    let mut ch = ChannelState::new();
    assert_eq!(ch.poll(DONE, 1), Poll::Ready(Ok(())));
    assert_eq!(ch.poll(FAILED, 1), Poll::Ready(Err(Error::TransferError)));
    assert_eq!(ch.on_interrupt(), None);
    assert_eq!(ch.poll(QUIET, 1), Poll::Pending);
    assert_eq!(ch.on_interrupt(), Some(1));
}

#[test]
fn flag_poll_arms_then_checks() {
    let mut s = WakerSlot::new();
    assert_eq!(poll_flag(&mut s, true, 3), Poll::Ready(()));
    assert!(!s.is_registered());
    assert_eq!(poll_flag(&mut s, false, 3), Poll::Pending);
    assert_eq!(s.signal(), Some(3));
}

#[test]
fn dma_control_word_and_program() {
    let req = TransferRequest {
        direction: Direction::PeripheralToMemory,
        peripheral_address: 0x4001_3804,
        memory_address: 0x2000_0000,
        peripheral_width: Width::Bits8,
        memory_width: Width::Bits16,
        count: 10,
        memory_increment: true,
        circular: false,
    };
    // enable, complete and error interrupts, memory increment, 16-bit memory.
    assert_eq!(control_word(&req), 0b1 | 0b10 | 0b1000 | 0x80 | (1 << 10));
    let write_req = TransferRequest { direction: Direction::MemoryToPeripheral, circular: true, ..req };
    assert_eq!(control_word(&write_req), 0b1 | 0b10 | 0b1000 | 0x10 | 0x20 | 0x80 | (1 << 10));

    let mut ch = ChannelState::new();
    assert_eq!(ch.poll(QUIET, 9), Poll::Pending);
    let p = read::<u8, u32>(&mut ch, 0x4001_3804, 0x2000_0100, 4);
    assert_eq!(p.peripheral_address, 0x4001_3804);
    assert_eq!(p.memory_address, 0x2000_0100);
    assert_eq!(p.count, 4);
    assert_eq!(p.control, 0b1011 | 0x80 | (2 << 10));
    // A new transfer forgets the old waker.
    assert_eq!(ch.on_interrupt(), None);
    let p = write_repeated::<u16, u16>(&mut ch, 0x2000_0200, 0x4001_300C, 3);
    assert_eq!(p.control, 0b1011 | 0x10 | (1 << 8) | (1 << 10));
    assert_eq!(p.memory_address, 0x2000_0200);
    assert_eq!(u8::from(Width::Bits32), 2);
}

#[test]
fn dma_channel_registers_and_flags() {
    let r = channel_registers(2);
    assert_eq!((r.control, r.count, r.peripheral_address, r.memory_address), (0x30, 0x34, 0x38, 0x3C));
    let f = channel_flags(0b1010 << 8, 2);
    assert!(f.complete && !f.half && f.error);
    let f = channel_flags(0b1010 << 8, 1);
    assert!(!f.complete && !f.error);
    assert_eq!(flag_clear_mask(3), 0xF000);
}
