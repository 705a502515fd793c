use pomelo_kernel::memory_manager::{BitmapMemoryManager, FrameRange, NUM_FRAMES};

#[test]
fn allocation_needs_freed_frames() {
    let mut m = BitmapMemoryManager::all_allocated();
    m.free(FrameRange { start: 0, end: 64 });

    let a = m.allocate(16).expect("16 of 64 free frames");
    assert_eq!(a.end - a.start, 16);
    assert!(a.end <= 64);

    let b = m.allocate(48).expect("the other 48 frames");
    assert_eq!(b.end - b.start, 48);

    // Allocated runs never overlap.
    assert!(a.end <= b.start || b.end <= a.start);
}

#[test]
fn freeing_makes_frames_allocatable_again() {
    let mut m = BitmapMemoryManager::all_allocated();
    m.free(FrameRange { start: 100, end: 116 });
    let a = m.allocate(16).expect("the freed run");
    assert_eq!(a, FrameRange { start: 100, end: 116 });

    m.free(a);
    let b = m.allocate(8).expect("half of the freed run");
    assert_eq!(b.end - b.start, 8);
    assert!(b.start >= 100 && b.end <= 116);
}

#[test]
fn fragmented_memory_rejects_large_runs() {
    let mut m = BitmapMemoryManager::all_allocated();
    // Two free fragments of 8 frames with an allocated gap between them.
    m.free(FrameRange { start: 0, end: 8 });
    m.free(FrameRange { start: 16, end: 24 });

    assert!(m.allocate(9).is_none());
    assert!(m.allocate(8).is_some());
}

#[test]
fn constants_describe_the_bitmap() {
    assert_eq!(NUM_FRAMES, 32 * 1024 * 1024);
}
