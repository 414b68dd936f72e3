use miuu_replay::CircularBuffer;

#[test]
fn fill_to_capacity_reads_back_in_push_order() {
    let mut buf: CircularBuffer<u32> = CircularBuffer::with_capacity(4);
    assert!(buf.is_empty());
    assert!(!buf.is_full());
    for v in [10, 20, 30, 40] {
        buf.push_back(v);
    }
    assert!(buf.is_full());
    assert_eq!(buf.size(), 4);
    assert_eq!(buf.capacity(), 4);
    assert_eq!(*buf.get(0), 10);
    assert_eq!(*buf.get(1), 20);
    assert_eq!(*buf.get(2), 30);
    assert_eq!(*buf.get(3), 40);
}

#[test]
fn push_when_full_overwrites_oldest_and_keeps_size() {
    let mut buf: CircularBuffer<u32> = CircularBuffer::with_capacity(3);
    buf.push_back(1);
    buf.push_back(2);
    buf.push_back(3);
    buf.push_back(4);
    assert_eq!(buf.size(), 3);
    assert_eq!(buf.capacity(), 3);
    assert_eq!(*buf.get(0), 2);
    assert_eq!(*buf.get(1), 3);
    assert_eq!(*buf.get(2), 4);
}

#[test]
fn push_front_prepends_and_overwrites_newest_when_full() {
    let mut buf: CircularBuffer<i32> = CircularBuffer::with_capacity(3);
    buf.push_front(5);
    buf.push_back(6);
    buf.push_front(4);
    assert_eq!(*buf.get(0), 4);
    assert_eq!(*buf.get(1), 5);
    assert_eq!(*buf.get(2), 6);
    // full: one more front push drops the newest
    buf.push_front(3);
    assert_eq!(buf.size(), 3);
    assert_eq!(*buf.get(0), 3);
    assert_eq!(*buf.get(1), 4);
    assert_eq!(*buf.get(2), 5);
}

#[test]
fn front_back_and_set() {
    let mut buf: CircularBuffer<u8> = CircularBuffer::with_capacity(2);
    buf.push_back(7);
    buf.push_back(9);
    assert_eq!(*buf.fast_front(), 7);
    assert_eq!(*buf.fast_back(), 9);
    buf.set(0, 8);
    assert_eq!(*buf.fast_front(), 8);
    assert_eq!(*buf.get(1), 9);
}

#[test]
fn wraparound_internal_index() {
    let mut buf: CircularBuffer<u8> = CircularBuffer::with_capacity(2);
    buf.push_back(1);
    buf.push_back(2);
    buf.push_back(3);
    // window start has advanced; logical index 1 wraps to physical slot 0
    assert_eq!(buf.internal_index(0), 1);
    assert_eq!(buf.internal_index(1), 0);
    assert_eq!(*buf.get(0), 2);
    assert_eq!(*buf.get(1), 3);
}

#[test]
fn new_has_no_capacity() {
    let buf: CircularBuffer<u8> = CircularBuffer::new();
    assert_eq!(buf.capacity(), 0);
    assert!(buf.is_empty());
    assert!(buf.is_full());
    assert_eq!(buf.size(), 0);
}
