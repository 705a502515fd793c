use pomelo_kernel::bitset::BitSet;

#[test]
fn insert_remove_contains() {
    let mut s: BitSet<200> = BitSet::new();
    assert!(!s.contains(0));
    assert!(!s.contains(199));

    s.insert(0);
    s.insert(63);
    s.insert(64);
    s.insert(199);
    assert!(s.contains(0));
    assert!(s.contains(63));
    assert!(s.contains(64));
    assert!(s.contains(199));
    assert!(!s.contains(1));
    assert!(!s.contains(65));

    s.remove(63);
    assert!(!s.contains(63));
    assert!(s.contains(64));
}

#[test]
fn range_insert_within_one_block() {
    let mut s: BitSet<128> = BitSet::new();
    s.insert_range(3, 9);
    for i in 0..128 {
        assert_eq!(s.contains(i), (3..9).contains(&i), "bit {}", i);
    }
}

#[test]
fn range_insert_across_blocks() {
    let mut s: BitSet<200> = BitSet::new();
    s.insert_range(60, 140);
    for i in 0..200 {
        assert_eq!(s.contains(i), (60..140).contains(&i), "bit {}", i);
    }
}

#[test]
fn range_remove_across_blocks() {
    let mut s: BitSet<200> = BitSet::new();
    s.insert_range(0, 200);
    s.remove_range(10, 130);
    for i in 0..200 {
        assert_eq!(s.contains(i), !(10..130).contains(&i), "bit {}", i);
    }
}

#[test]
fn empty_ranges_change_nothing() {
    let mut s: BitSet<100> = BitSet::new();
    s.insert(5);
    s.insert_range(7, 7);
    s.remove_range(5, 5);
    assert!(s.contains(5));
    assert!(!s.contains(7));
}
