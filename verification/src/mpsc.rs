//! A multi-producer, single-consumer FIFO message queue.
//!
//! The consumer owns the queue's contents; a producer is a clonable
//! capability whose `enqueue` takes the consumer end explicitly, the way the
//! kernel's single lock discipline serialises every queue operation.
//! Messages are delivered losslessly and in enqueue order.

use std::collections::VecDeque;
use vstd::prelude::*;

verus! {

/// The consumer end, holding the queued values oldest first.
pub struct MPSCConsumer<T> {
    queue: VecDeque<T>,
}

/// A producer capability for a queue; clonable, so any number of tasks can
/// send to the same consumer.
pub struct MPSCProducer<T> {
    _marker: core::marker::PhantomData<T>,
}

impl<T> Clone for MPSCProducer<T> {
    fn clone(&self) -> (r: Self) {
        MPSCProducer { _marker: core::marker::PhantomData }
    }
}

impl<T> View for MPSCConsumer<T> {
    type V = Seq<T>;

    closed spec fn view(&self) -> Seq<T> {
        self.queue@
    }
}

impl<T> MPSCConsumer<T> {
    pub fn new() -> (c: MPSCConsumer<T>)
        ensures
            c@ == Seq::<T>::empty(),
    {
        MPSCConsumer { queue: VecDeque::new() }
    }

    /// Takes the oldest queued value, if any: returns `Some` exactly when
    /// the queue is non-empty, and then hands out its first element.
    pub fn dequeue(&mut self) -> (r: Option<T>)
        ensures
            old(self)@.len() == 0 ==> r is None && final(self)@ == old(self)@,
            old(self)@.len() > 0 ==> r == Some(old(self)@[0]) && final(self)@ == old(
                self,
            )@.drop_first(),
    {
        self.queue.pop_front()
    }

    /// How many values are queued right now. (Under the kernel's lock
    /// discipline the count is exact; concurrent producers would make it
    /// approximate, which is all callers rely on.)
    pub fn approximate_len(&self) -> (n: usize)
        ensures
            n == self@.len(),
    {
        self.queue.len()
    }

    pub fn producer(&self) -> (p: MPSCProducer<T>) {
        MPSCProducer { _marker: core::marker::PhantomData }
    }
}

impl<T> MPSCProducer<T> {
    /// Appends a value at the back of the queue; always succeeds and never
    /// blocks, and never disturbs the values already queued.
    pub fn enqueue(&self, consumer: &mut MPSCConsumer<T>, value: T)
        ensures
            final(consumer)@ == old(consumer)@.push(value),
    {
        consumer.queue.push_back(value);
    }
}

/// Lossless in-order delivery: from a queue holding `s`, draining one value
/// at a time yields exactly `s[0]`, then `s[1]`, and so on, and each step
/// shortens the queue by exactly one, so the total dequeued equals the total
/// enqueued. This is the sequence-level fact behind `dequeue`'s contract.
pub proof fn lemma_fifo_order<T>(s: Seq<T>, k: int)
    requires
        0 <= k < s.len(),
    ensures
        s.skip(k).first() == s[k],
        s.skip(k).drop_first() == s.skip(k + 1),
        s.skip(k).len() + k == s.len(),
{
    assert(s.skip(k).drop_first() =~= s.skip(k + 1));
}

} // verus!
