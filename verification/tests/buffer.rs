use voice_to_text::buffer::RingBuffer;

// ---- Basic push / drain ----------------------------------------------------

#[test]
fn push_and_drain_within_capacity() {
    let mut buf = RingBuffer::new(8);
    buf.push_slice(&[1i16, 2, 3]);
    assert_eq!(buf.len(), 3);
    assert!(!buf.is_full());

    let data = buf.drain();
    assert_eq!(data, vec![1, 2, 3]);
    assert!(buf.is_empty());
}

#[test]
fn push_exactly_capacity() {
    let mut buf = RingBuffer::new(4);
    buf.push_slice(&[1i16, 2, 3, 4]);
    assert!(buf.is_full());

    let data = buf.drain();
    assert_eq!(data, vec![1, 2, 3, 4]);
}

// ---- Overflow (oldest sample discarded) ------------------------------------

#[test]
fn overflow_by_one_drops_oldest() {
    let mut buf = RingBuffer::new(4);
    buf.push_slice(&[1i16, 2, 3, 4, 5]); // 5 > capacity(4)

    assert_eq!(buf.len(), 4);
    let data = buf.drain();
    // 1 was overwritten; remaining order must be preserved
    assert_eq!(data, vec![2, 3, 4, 5]);
}

#[test]
fn overflow_by_full_capacity_keeps_newest() {
    let mut buf = RingBuffer::new(4);
    // Push 8 items — only last 4 survive
    buf.push_slice(&[1i16, 2, 3, 4, 5, 6, 7, 8]);

    assert_eq!(buf.len(), 4);
    let data = buf.drain();
    assert_eq!(data, vec![5, 6, 7, 8]);
}

#[test]
fn multiple_overflows_in_separate_calls() {
    let mut buf = RingBuffer::new(3);
    buf.push_slice(&[1i16, 2, 3]); // fill
    buf.push_slice(&[4i16, 5]); // 2 more -> overwrites 1 and 2

    let data = buf.drain();
    assert_eq!(data, vec![3, 4, 5]);
}

// ---- Drain / clear semantics ------------------------------------------------

#[test]
fn drain_clears_buffer() {
    let mut buf = RingBuffer::new(4);
    buf.push_slice(&[1i16, 2]);
    let _ = buf.drain();

    assert!(buf.is_empty());
    assert_eq!(buf.len(), 0);
}

#[test]
fn drain_empty_returns_empty_vec() {
    let mut buf: RingBuffer<i16> = RingBuffer::new(4);
    assert_eq!(buf.drain(), Vec::<i16>::new());
}

#[test]
fn clear_resets_state() {
    let mut buf = RingBuffer::new(4);
    buf.push_slice(&[1i16, 2, 3, 4, 5]);
    buf.clear();

    assert!(buf.is_empty());
    assert_eq!(buf.len(), 0);

    // Should be usable again after clear
    buf.push_slice(&[9i16]);
    assert_eq!(buf.drain(), vec![9]);
}

#[test]
fn reuse_after_drain() {
    let mut buf = RingBuffer::new(3);

    buf.push_slice(&[1i16, 2, 3]);
    let first = buf.drain();
    assert_eq!(first, vec![1, 2, 3]);

    buf.push_slice(&[4i16, 5]);
    let second = buf.drain();
    assert_eq!(second, vec![4, 5]);
}

// ---- Capacity / duration helpers --------------------------------------------

#[test]
fn capacity_reported_correctly() {
    let buf: RingBuffer<i16> = RingBuffer::new(1024);
    assert_eq!(buf.capacity(), 1024);
}

#[test]
fn duration_secs_calculation() {
    let mut buf = RingBuffer::new(16_000);
    buf.push_slice(&vec![0i16; 8_000]);
    // 8000 samples at 16kHz = 500 milliseconds
    assert_eq!(buf.duration_ms(16_000), 500);
}

#[test]
fn duration_with_zero_sample_rate_is_zero() {
    let mut buf = RingBuffer::new(16);
    buf.push_slice(&[1i16, 2, 3]);
    assert_eq!(buf.duration_ms(0), 0);
}
