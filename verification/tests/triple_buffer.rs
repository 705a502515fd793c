use pomelo_kernel::triple_buffer::TripleBuffer;

#[test]
fn latest_value_wins() {
    // The producer publishes 1..=5 without the consumer keeping up; the
    // consumer's final read sees 5, the newest complete value.
    let buffer = TripleBuffer::from_values(0u32, 0, 0);
    let (mut producer, mut consumer, mut slots) = buffer.split();

    for v in 1..=5u32 {
        producer.write(&mut slots, v);
    }
    assert!(consumer.has_update(&slots));
    assert_eq!(*consumer.read(&mut slots), 5);

    // The claim consumed the latest publish.
    assert!(!consumer.has_update(&slots));
    assert!(!consumer.update(&mut slots));
    assert_eq!(*consumer.read_last_buffer(&slots), 5);
}

#[test]
fn reads_only_see_complete_writes() {
    // Whatever the interleaving, a read returns either the initial value or
    // some value that was written whole.
    let buffer = TripleBuffer::from_values(100u32, 100, 100);
    let (mut producer, mut consumer, mut slots) = buffer.split();

    let mut seen = Vec::new();
    for v in 1..=9u32 {
        producer.write(&mut slots, v);
        if v % 3 == 0 {
            seen.push(*consumer.read(&mut slots));
        }
    }
    assert_eq!(seen, vec![3, 6, 9]);
}

#[test]
fn reader_without_update_keeps_last_value() {
    let buffer = TripleBuffer::from_values(0u32, 0, 0);
    let (mut producer, mut consumer, mut slots) = buffer.split();

    assert!(!consumer.has_update(&slots));
    assert_eq!(*consumer.read(&mut slots), 0);

    producer.write(&mut slots, 7);
    assert_eq!(*consumer.read(&mut slots), 7);
    // No new publish: repeated reads return the claimed value.
    assert_eq!(*consumer.read(&mut slots), 7);
    assert_eq!(*consumer.read(&mut slots), 7);
}

#[test]
fn read_update_reports_only_fresh_publishes() {
    let buffer = TripleBuffer::from_values(0u32, 0, 0);
    let (mut producer, mut consumer, mut slots) = buffer.split();

    // Nothing published yet.
    assert_eq!(consumer.read_update(&mut slots), None);

    producer.write(&mut slots, 4);
    assert_eq!(consumer.read_update(&mut slots), Some(&4));
    // The publish was consumed; nothing newer remains.
    assert_eq!(consumer.read_update(&mut slots), None);
    assert_eq!(*consumer.read_last_buffer(&slots), 4);
}

#[test]
fn producer_never_blocks() {
    // The producer can run arbitrarily far ahead of a consumer that never
    // reads; every publish succeeds.
    let buffer = TripleBuffer::from_values(0u64, 0, 0);
    let (mut producer, mut consumer, mut slots) = buffer.split();
    for v in 0..1000u64 {
        producer.write(&mut slots, v);
    }
    assert_eq!(*consumer.read(&mut slots), 999);
}

#[test]
fn from_fn_fills_every_slot() {
    let buffer = TripleBuffer::from_fn(|| 11u8);
    let (mut producer, mut consumer, mut slots) = buffer.split();
    assert_eq!(*consumer.read(&mut slots), 11);
    producer.write(&mut slots, 22);
    assert_eq!(*consumer.read(&mut slots), 22);
}

#[test]
fn new_clones_the_seed_value() {
    let buffer = TripleBuffer::new(&5u16);
    let (_producer, mut consumer, mut slots) = buffer.split();
    assert_eq!(*consumer.read(&mut slots), 5);
}
