use pomelo_kernel::mpsc::MPSCConsumer;

#[test]
fn delivers_in_enqueue_order() {
    let mut consumer: MPSCConsumer<u32> = MPSCConsumer::new();
    let producer = consumer.producer();
    for v in [3, 1, 4, 1, 5] {
        producer.enqueue(&mut consumer, v);
    }
    let mut out = Vec::new();
    while let Some(v) = consumer.dequeue() {
        out.push(v);
    }
    assert_eq!(out, vec![3, 1, 4, 1, 5]);
}

#[test]
fn interleaved_producers_preserve_each_producers_order() {
    // Two producers interleave; each producer's own messages come out in
    // its call order, and nothing is lost or duplicated.
    let mut consumer: MPSCConsumer<(u8, u32)> = MPSCConsumer::new();
    let p1 = consumer.producer();
    let p2 = p1.clone();

    p1.enqueue(&mut consumer, (1, 10));
    p2.enqueue(&mut consumer, (2, 20));
    p1.enqueue(&mut consumer, (1, 11));
    p1.enqueue(&mut consumer, (1, 12));
    p2.enqueue(&mut consumer, (2, 21));

    assert_eq!(consumer.approximate_len(), 5);
    let mut out = Vec::new();
    while let Some(v) = consumer.dequeue() {
        out.push(v);
    }
    assert_eq!(out.len(), 5);
    let from_p1: Vec<u32> = out.iter().filter(|(p, _)| *p == 1).map(|(_, v)| *v).collect();
    let from_p2: Vec<u32> = out.iter().filter(|(p, _)| *p == 2).map(|(_, v)| *v).collect();
    assert_eq!(from_p1, vec![10, 11, 12]);
    assert_eq!(from_p2, vec![20, 21]);
}

#[test]
fn empty_queue_dequeues_none() {
    let mut consumer: MPSCConsumer<u32> = MPSCConsumer::new();
    assert_eq!(consumer.dequeue(), None);
    assert_eq!(consumer.approximate_len(), 0);
    let producer = consumer.producer();
    producer.enqueue(&mut consumer, 7);
    assert_eq!(consumer.dequeue(), Some(7));
    assert_eq!(consumer.dequeue(), None);
}
