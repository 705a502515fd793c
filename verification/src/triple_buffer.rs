//! A triple buffer: one producer repeatedly publishes a "latest value" of
//! type `T` and one consumer always reads the most recent complete value,
//! with neither side blocking and without tearing.
//!
//! Three slots are shared between the two sides together with one index
//! word that carries the currently free/published slot and a "newer" flag.
//! At every instant the producer owns exactly one slot (its private write
//! index), the consumer owns exactly one slot (its read index), and the
//! third is the one named by the shared word: the three indices are always a
//! permutation of `{0, 1, 2}`, so the sides never touch the same slot.
//! Publishing and claiming are single swaps of that word; intermediate
//! values the consumer never claims are deliberately overwritten —
//! latest-value-wins, unlike the order-preserving message queue.
//!
//! The slot storage is passed to each operation explicitly, the way every
//! shared structure in this kernel core is serialised by its caller.

use vstd::prelude::*;

verus! {

pub const NEWER_BIT: u8 = 0x10;

pub const INDEX_MASK: u8 = 0x03;

/// Which slot an index word names.
pub open spec fn spec_slot_of(w: u8) -> int {
    (w & INDEX_MASK) as int
}

/// Whether an index word carries the "newer" flag: the named slot holds a
/// publish that the consumer has not claimed yet.
pub open spec fn spec_newer(w: u8) -> bool {
    w & 0xfc != 0
}

proof fn lemma_pack_slot(x: u8)
    by (bit_vector)
    requires
        x < 4,
    ensures
        (x | 0x10) & 0x03 == x,
        ((x | 0x10) & 0xfc) != 0,
{
}

proof fn lemma_bare_slot(x: u8)
    by (bit_vector)
    requires
        x < 4,
    ensures
        x & 0x03 == x,
        (x & 0xfc) == 0,
{
}

/// The three shared slots and the free/published index word.
pub struct SharedSlots<T> {
    buffers: Vec<T>,
    free_index: u8,
}

/// The producer's side: the slot it is free to write into.
pub struct Producer<T> {
    write_index: u8,
    _marker: core::marker::PhantomData<T>,
}

/// The consumer's side: the slot it last claimed and reads from.
pub struct Consumer<T> {
    read_index: u8,
    _marker: core::marker::PhantomData<T>,
}

/// An unsplit triple buffer.
pub struct TripleBuffer<T> {
    slots: SharedSlots<T>,
    producer: Producer<T>,
    consumer: Consumer<T>,
}

impl<T> SharedSlots<T> {
    pub closed spec fn spec_buffers(&self) -> Seq<T> {
        self.buffers@
    }

    pub closed spec fn spec_free_index(&self) -> u8 {
        self.free_index
    }

    pub open spec fn spec_free_slot(&self) -> int {
        spec_slot_of(self.spec_free_index())
    }

    pub open spec fn spec_has_newer(&self) -> bool {
        spec_newer(self.spec_free_index())
    }

    pub open spec fn wf(&self) -> bool {
        &&& self.spec_buffers().len() == 3
        &&& 0 <= self.spec_free_slot() < 3
    }
}

impl<T> Producer<T> {
    pub closed spec fn spec_write_index(&self) -> int {
        self.write_index as int
    }
}

impl<T> Consumer<T> {
    pub closed spec fn spec_read_index(&self) -> int {
        self.read_index as int
    }
}

/// The invariant that makes the exchange tear free: producer, consumer and
/// the shared word each name one slot, and the three never collide.
pub open spec fn spec_connected<T>(s: SharedSlots<T>, p: Producer<T>, c: Consumer<T>) -> bool {
    &&& s.wf()
    &&& 0 <= p.spec_write_index() < 3
    &&& 0 <= c.spec_read_index() < 3
    &&& p.spec_write_index() != c.spec_read_index()
    &&& p.spec_write_index() != s.spec_free_slot()
    &&& c.spec_read_index() != s.spec_free_slot()
}

impl<T> TripleBuffer<T> {
    /// Builds a buffer whose three slots are filled with the given values;
    /// nothing is published yet.
    pub fn from_values(v0: T, v1: T, v2: T) -> (b: TripleBuffer<T>)
        ensures
            b.wf(),
            b.spec_slots().spec_buffers() =~= seq![v0, v1, v2],
            !b.spec_slots().spec_has_newer(),
            b.spec_producer().spec_write_index() == 1,
            b.spec_consumer().spec_read_index() == 0,
            b.spec_slots().spec_free_slot() == 2,
    {
        let mut buffers: Vec<T> = Vec::new();
        buffers.push(v0);
        buffers.push(v1);
        buffers.push(v2);
        proof {
            lemma_bare_slot(2);
        }
        TripleBuffer {
            slots: SharedSlots { buffers, free_index: 2 },
            producer: Producer { write_index: 1, _marker: core::marker::PhantomData },
            consumer: Consumer { read_index: 0, _marker: core::marker::PhantomData },
        }
    }

    /// Builds a buffer by calling the generator once per slot.
    pub fn from_fn<F: Fn() -> T>(default_value_generator: F) -> (b: TripleBuffer<T>)
        requires
            call_requires(default_value_generator, ()),
        ensures
            b.wf(),
            b.spec_slots().spec_buffers().len() == 3,
            forall|i: int|
                0 <= i < 3 ==> call_ensures(
                    default_value_generator,
                    (),
                    #[trigger] b.spec_slots().spec_buffers()[i],
                ),
            !b.spec_slots().spec_has_newer(),
            b.spec_producer().spec_write_index() == 1,
            b.spec_consumer().spec_read_index() == 0,
            b.spec_slots().spec_free_slot() == 2,
    {
        let v0 = default_value_generator();
        let v1 = default_value_generator();
        let v2 = default_value_generator();
        Self::from_values(v0, v1, v2)
    }

    /// Builds a buffer whose three slots are clones of the given value.
    pub fn new(value: &T) -> (b: TripleBuffer<T>) where T: Clone
        ensures
            b.wf(),
            b.spec_slots().spec_buffers().len() == 3,
            !b.spec_slots().spec_has_newer(),
            b.spec_producer().spec_write_index() == 1,
            b.spec_consumer().spec_read_index() == 0,
            b.spec_slots().spec_free_slot() == 2,
    {
        let v0 = value.clone();
        let v1 = value.clone();
        let v2 = value.clone();
        Self::from_values(v0, v1, v2)
    }

    pub closed spec fn spec_slots(&self) -> SharedSlots<T> {
        self.slots
    }

    pub closed spec fn spec_producer(&self) -> Producer<T> {
        self.producer
    }

    pub closed spec fn spec_consumer(&self) -> Consumer<T> {
        self.consumer
    }

    pub open spec fn wf(&self) -> bool {
        spec_connected(self.spec_slots(), self.spec_producer(), self.spec_consumer())
    }

    /// Splits the buffer into its producer and consumer sides plus the
    /// shared slots that every operation takes explicitly.
    pub fn split(self) -> (r: (Producer<T>, Consumer<T>, SharedSlots<T>))
        requires
            self.wf(),
        ensures
            r.0 == self.spec_producer(),
            r.1 == self.spec_consumer(),
            r.2 == self.spec_slots(),
            spec_connected(r.2, r.0, r.1),
    {
        (self.producer, self.consumer, self.slots)
    }
}

impl<T> Producer<T> {
    /// Writes a value into the producer's private slot and publishes it:
    /// exactly one slot changes, and it is a slot the consumer does not
    /// hold.
    pub fn write(&mut self, slots: &mut SharedSlots<T>, value: T)
        requires
            old(slots).wf(),
            0 <= old(self).spec_write_index() < 3,
            old(self).spec_write_index() != old(slots).spec_free_slot(),
        ensures
            final(slots).wf(),
            final(slots).spec_buffers() == old(slots).spec_buffers().update(
                old(self).spec_write_index(),
                value,
            ),
            final(slots).spec_free_slot() == old(self).spec_write_index(),
            final(slots).spec_has_newer(),
            final(self).spec_write_index() == old(slots).spec_free_slot(),
            forall|c: Consumer<T>|
                spec_connected(*old(slots), *old(self), c) ==> spec_connected(
                    *final(slots),
                    *final(self),
                    c,
                ),
    {
        slots.buffers[self.write_index as usize] = value;
        self.publish(slots);
    }

    /// Atomically exchanges the just-written slot for whatever slot was
    /// free, marking the written one as published; single swap, no
    /// allocation, never blocks, and moves no data between slots.
    pub fn publish(&mut self, slots: &mut SharedSlots<T>)
        requires
            old(slots).wf(),
            0 <= old(self).spec_write_index() < 3,
            old(self).spec_write_index() != old(slots).spec_free_slot(),
        ensures
            final(slots).wf(),
            final(slots).spec_buffers() == old(slots).spec_buffers(),
            final(slots).spec_free_slot() == old(self).spec_write_index(),
            final(slots).spec_has_newer(),
            final(self).spec_write_index() == old(slots).spec_free_slot(),
            forall|c: Consumer<T>|
                spec_connected(*old(slots), *old(self), c) ==> spec_connected(
                    *final(slots),
                    *final(self),
                    c,
                ),
    {
        proof {
            lemma_pack_slot(self.write_index);
            lemma_slot_of_any(slots.free_index);
        }
        let previous_free = slots.free_index;
        slots.free_index = self.write_index | NEWER_BIT;
        self.write_index = previous_free & INDEX_MASK;
    }
}

proof fn lemma_slot_of_any(w: u8)
    by (bit_vector)
    ensures
        (w & 0x03) < 4,
        ((w & 0x03) & 0x03) == w & 0x03,
        ((w & 0x03) & 0xfc) == 0,
{
}

impl<T> Consumer<T> {
    /// Whether a publish has happened that this consumer has not yet
    /// claimed.
    pub fn has_update(&self, slots: &SharedSlots<T>) -> (r: bool)
        ensures
            r == slots.spec_has_newer(),
    {
        slots.free_index & 0xfc != 0
    }

    /// Claims the published slot if it is newer than what was last read:
    /// the consumer takes over the published slot and gives up its old one,
    /// which becomes the new free slot. Nothing is copied, so a fully
    /// written value is all a claim can ever surface.
    pub fn update(&mut self, slots: &mut SharedSlots<T>) -> (r: bool)
        requires
            old(slots).wf(),
            0 <= old(self).spec_read_index() < 3,
            old(self).spec_read_index() != old(slots).spec_free_slot(),
        ensures
            final(slots).wf(),
            final(slots).spec_buffers() == old(slots).spec_buffers(),
            r == old(slots).spec_has_newer(),
            !r ==> *final(self) == *old(self) && *final(slots) == *old(slots),
            r ==> {
                &&& final(self).spec_read_index() == old(slots).spec_free_slot()
                &&& final(slots).spec_free_slot() == old(self).spec_read_index()
                &&& !final(slots).spec_has_newer()
            },
            forall|p: Producer<T>|
                spec_connected(*old(slots), p, *old(self)) ==> spec_connected(
                    *final(slots),
                    p,
                    *final(self),
                ),
    {
        if !self.has_update(slots) {
            return false;
        }
        proof {
            lemma_bare_slot(self.read_index);
            lemma_slot_of_any(slots.free_index);
        }
        let previous_free = slots.free_index;
        slots.free_index = self.read_index;
        self.read_index = previous_free & INDEX_MASK;
        true
    }

    /// The slot contents the consumer last claimed, without checking for a
    /// newer publish.
    pub fn read_last_buffer<'a>(&self, slots: &'a SharedSlots<T>) -> (r: &'a T)
        requires
            slots.wf(),
            0 <= self.spec_read_index() < 3,
        ensures
            *r == slots.spec_buffers()[self.spec_read_index()],
    {
        &slots.buffers[self.read_index as usize]
    }

    /// Claims the latest publish if there is one and hands out the freshly
    /// claimed value; `None` exactly when nothing newer was published, and
    /// then nothing moves.
    pub fn read_update<'a>(&mut self, slots: &'a mut SharedSlots<T>) -> (r: Option<&'a T>)
        requires
            old(slots).wf(),
            0 <= old(self).spec_read_index() < 3,
            old(self).spec_read_index() != old(slots).spec_free_slot(),
        ensures
            final(slots).spec_buffers() == old(slots).spec_buffers(),
            old(slots).spec_has_newer() ==> (r matches Some(v) && *v == old(slots).spec_buffers()[old(slots).spec_free_slot()] && final(self).spec_read_index() == old(slots).spec_free_slot() && final(slots).spec_free_slot() == old(self).spec_read_index()
                && !final(slots).spec_has_newer()),
            !old(slots).spec_has_newer() ==> r is None && *final(self) == *old(self) && *final(slots) == *old(slots),
            forall|p: Producer<T>|
                spec_connected(*old(slots), p, *old(self)) ==> spec_connected(
                    *final(slots),
                    p,
                    *final(self),
                ),
    {
        if self.update(slots) {
            Some(&slots.buffers[self.read_index as usize])
        } else {
            None
        }
    }

    /// Claims the latest publish if there is one, then reads: the result is
    /// the newest completely published value, or the previously claimed one
    /// when nothing newer arrived.
    pub fn read<'a>(&mut self, slots: &'a mut SharedSlots<T>) -> (r: &'a T)
        requires
            old(slots).wf(),
            0 <= old(self).spec_read_index() < 3,
            old(self).spec_read_index() != old(slots).spec_free_slot(),
        ensures
            final(slots).spec_buffers() == old(slots).spec_buffers(),
            *r == old(slots).spec_buffers()[final(self).spec_read_index()],
            old(slots).spec_has_newer() ==> final(self).spec_read_index() == old(slots).spec_free_slot(),
            !old(slots).spec_has_newer() ==> final(self).spec_read_index() == old(self).spec_read_index(),
            !final(slots).spec_has_newer(),
            forall|p: Producer<T>|
                spec_connected(*old(slots), p, *old(self)) ==> spec_connected(
                    *final(slots),
                    p,
                    *final(self),
                ),
    {
        self.update(slots);
        &slots.buffers[self.read_index as usize]
    }
}

} // verus!
