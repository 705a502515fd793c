use pomelo_kernel::ring_buffer::ArrayRingBuffer;

#[test]
fn pushes_and_pops_at_both_ends() {
    let mut b: ArrayRingBuffer<u32, 4> = ArrayRingBuffer::new();
    assert!(b.is_empty());
    assert_eq!(b.capacity(), 4);

    b.push_back(1);
    b.push_back(2);
    b.push_front(0);
    assert_eq!(b.len(), 3);
    assert_eq!(b.remaining_capacity(), 1);

    assert_eq!(b.pop_front(), Some(0));
    assert_eq!(b.pop_back(), Some(2));
    assert_eq!(b.pop_front(), Some(1));
    assert_eq!(b.pop_front(), None);
    assert_eq!(b.pop_back(), None);
}

#[test]
fn rejects_pushes_when_full() {
    let mut b: ArrayRingBuffer<u8, 2> = ArrayRingBuffer::new();
    assert!(b.try_push_back(1).is_ok());
    assert!(b.try_push_back(2).is_ok());
    assert!(b.is_full());

    let err = b.try_push_back(3).unwrap_err();
    assert_eq!(*err.element(), 3);
    assert_eq!(err.take(), 3);

    let err = b.try_push_front(4).unwrap_err();
    assert_eq!(err.take(), 4);

    assert_eq!(b.pop_front(), Some(1));
    assert!(b.try_push_back(3).is_ok());
    assert_eq!(b.pop_front(), Some(2));
    assert_eq!(b.pop_front(), Some(3));
}

#[test]
fn wraps_around_the_backing_array() {
    let mut b: ArrayRingBuffer<u32, 3> = ArrayRingBuffer::new();
    // Cycle enough elements through that the cursors wrap several times.
    for round in 0..10u32 {
        b.push_back(round * 2);
        b.push_back(round * 2 + 1);
        assert_eq!(b.pop_front(), Some(round * 2));
        assert_eq!(b.pop_front(), Some(round * 2 + 1));
    }
    assert!(b.is_empty());
}

#[test]
fn wrapping_push_front_crosses_the_boundary() {
    let mut b: ArrayRingBuffer<u32, 3> = ArrayRingBuffer::new();
    b.push_front(1);
    b.push_front(2);
    b.push_front(3);
    assert!(b.is_full());
    assert_eq!(b.pop_back(), Some(1));
    assert_eq!(b.pop_back(), Some(2));
    assert_eq!(b.pop_back(), Some(3));
}

#[test]
fn clear_empties_the_buffer() {
    let mut b: ArrayRingBuffer<u32, 3> = ArrayRingBuffer::new();
    b.push_back(1);
    b.push_back(2);
    b.clear();
    assert!(b.is_empty());
    assert_eq!(b.pop_front(), None);
    b.push_back(9);
    assert_eq!(b.pop_front(), Some(9));
}
