use cable_audio_bus::ring::RingBuffer;
use cable_audio_bus::wire::{STATUS_OVERRUN, STATUS_UNDERRUN};

#[test]
fn fresh_buffer_is_empty() {
    let rb = RingBuffer::new(8);
    let h = rb.header();
    assert_eq!(h.write_index, 0);
    assert_eq!(h.read_index, 0);
    assert_eq!(h.buffer_size, 8);
    assert_eq!(h.status, 0);
    assert_eq!(rb.available_to_write(), 8);
    assert_eq!(rb.available_to_read(), 0);
}

#[test]
fn fifo_bytes_come_out_in_order() {
    let mut rb = RingBuffer::new(8);
    rb.write(&[1, 2, 3]);
    rb.write(&[4, 5]);
    assert_eq!(rb.read(2), vec![1, 2]);
    rb.write(&[6, 7, 8, 9, 10]);
    assert_eq!(rb.available_to_read(), 8);
    assert_eq!(rb.read(8), vec![3, 4, 5, 6, 7, 8, 9, 10]);
    assert_eq!(rb.header().status, 0);
}

#[test]
fn fifo_wraps_around_many_times() {
    let mut rb = RingBuffer::new(5);
    let mut expected: Vec<u8> = Vec::new();
    let mut got: Vec<u8> = Vec::new();
    for round in 0..20u8 {
        let chunk = [round, round.wrapping_add(100), round.wrapping_add(200)];
        rb.write(&chunk);
        expected.extend_from_slice(&chunk);
        got.extend(rb.read(3));
    }
    assert_eq!(got, expected);
    assert_eq!(rb.header().write_index, 60);
    assert_eq!(rb.header().read_index, 60);
    assert_eq!(rb.header().status, 0);
}

#[test]
fn overrun_keeps_most_recent_bytes() {
    let mut rb = RingBuffer::new(4);
    rb.write(&[1, 2, 3, 4, 5, 6]);
    let h = rb.header();
    assert_ne!(h.status & STATUS_OVERRUN, 0);
    assert_eq!(h.write_index, 6);
    assert_eq!(h.read_index, 2);
    assert_eq!(rb.read(4), vec![3, 4, 5, 6]);
}

#[test]
fn overrun_across_writes_drops_oldest() {
    let mut rb = RingBuffer::new(4);
    rb.write(&[1, 2, 3]);
    rb.write(&[4, 5, 6]);
    assert_ne!(rb.header().status & STATUS_OVERRUN, 0);
    assert_eq!(rb.read(10), vec![3, 4, 5, 6]);
}

#[test]
fn underrun_returns_what_is_there() {
    let mut rb = RingBuffer::new(8);
    rb.write(&[9, 8, 7]);
    let out = rb.read(5);
    assert_eq!(out, vec![9, 8, 7]);
    assert_ne!(rb.header().status & STATUS_UNDERRUN, 0);
    assert_eq!(rb.header().status & STATUS_OVERRUN, 0);
}

#[test]
fn exact_read_sets_no_underrun() {
    let mut rb = RingBuffer::new(8);
    rb.write(&[9, 8, 7]);
    assert_eq!(rb.read(3), vec![9, 8, 7]);
    assert_eq!(rb.header().status, 0);
}

#[test]
fn status_bits_are_sticky_until_acknowledged() {
    let mut rb = RingBuffer::new(2);
    rb.write(&[1, 2, 3]);
    let _ = rb.read(5);
    assert_eq!(rb.header().status, STATUS_OVERRUN | STATUS_UNDERRUN);
    rb.write(&[4]);
    assert_eq!(rb.read(1), vec![4]);
    assert_eq!(rb.header().status, STATUS_OVERRUN | STATUS_UNDERRUN);
    rb.acknowledge_status(STATUS_OVERRUN);
    assert_eq!(rb.header().status, STATUS_UNDERRUN);
    rb.acknowledge_status(STATUS_UNDERRUN);
    assert_eq!(rb.header().status, 0);
}
