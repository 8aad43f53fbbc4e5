use embassy_gd32_core::ring_buffer::RingBuffer;

#[test]
fn bytes_come_out_in_the_order_pushed() {
    let mut r = RingBuffer::new(4);
    let mut out = Vec::new();
    for b in 0u8..20 {
        assert!(r.push_one(b));
        if r.len() == 3 {
            out.push(r.pop_one().unwrap());
            out.push(r.pop_one().unwrap());
        }
    }
    while let Some(b) = r.pop_one() {
        out.push(b);
    }
    assert_eq!(out, (0u8..20).collect::<Vec<u8>>());
}

#[test]
fn full_buffer_refuses_without_damage() {
    let mut r = RingBuffer::new(3);
    assert!(r.push_one(1) && r.push_one(2) && r.push_one(3));
    assert!(r.is_full());
    assert!(!r.push_one(4));
    assert_eq!(r.len(), 3);
    assert_eq!(r.pop_one(), Some(1));
    assert_eq!(r.pop_one(), Some(2));
    assert_eq!(r.pop_one(), Some(3));
    assert_eq!(r.pop_one(), None);
}

#[test]
fn empty_buffer_gives_zero_bytes() {
    let mut r = RingBuffer::new(8);
    let mut out = [9u8; 4];
    assert_eq!(r.pop_into(&mut out), 0);
    assert_eq!(out, [9u8; 4]);
    assert!(r.is_empty());
    assert_eq!(r.pop_one(), None);
}

#[test]
fn slices_move_one_run_at_a_time() {
    let mut r = RingBuffer::new(5);
    assert_eq!(r.push_slice(&[1, 2, 3, 4]), 4);
    let mut out = [0u8; 3];
    assert_eq!(r.pop_into(&mut out), 3);
    assert_eq!(out, [1, 2, 3]);
    // One byte (4) queued at index 3: one free slot up to the end.
    assert_eq!(r.writable_run(), 1);
    assert_eq!(r.push_slice(&[5, 6, 7]), 1);
    assert_eq!(r.push_slice(&[6, 7, 8, 9]), 3);
    assert!(r.is_full());
    assert_eq!(r.push_slice(&[10]), 0);
    let mut out = [0u8; 8];
    assert_eq!(r.readable_run(), 2);
    assert_eq!(r.pop_into(&mut out), 2);
    assert_eq!(&out[..2], &[4, 5]);
    assert_eq!(r.pop_into(&mut out), 3);
    assert_eq!(&out[..3], &[6, 7, 8]);
    assert_eq!(r.capacity(), 5);
}
