//! Tick bookkeeping for the interrupt timer: the target tick frequency and
//! a queue of oneshot and periodic timeouts ordered by their due tick.
//!
//! Registering hands back the timeout's id; each call of [`Timer::tick`]
//! advances the clock by one and reports the ids whose timeouts fired, so
//! the caller runs the callbacks it keeps for them. Periodic timeouts are
//! re-armed one interval later, catching up tick by tick when overdue.

use vstd::prelude::*;

verus! {

/// The target frequency of the interrupt timer, in ticks per second.
pub const TARGET_FREQUENCY: u32 = 100;

/// Milliseconds covered by one tick at the 100 Hz target frequency.
pub const MILLISEC_PER_TICK: u64 = 10;

/// What happens when a timeout fires: nothing further, or re-arming one
/// interval later.
#[derive(Copy, Clone, PartialEq, Eq, Hash, Debug, Structural)]
pub enum TimerTask {
    Oneshot,
    Periodic { interval_ticks: u64 },
}

/// One pending timeout: when it is due, whose it is, and what firing does.
#[derive(Copy, Clone, PartialEq, Eq, Hash, Debug, Structural)]
pub struct TimerEntry {
    pub target_tick: u64,
    pub task_id: usize,
    pub task: TimerTask,
}

/// The timeout queue and the current tick.
pub struct Timer {
    queue: Vec<TimerEntry>,
    next_task_id: usize,
    tick: u64,
}

/// How overdue one entry is, counting an entry due at or before `tick` by
/// how many ticks ago it became due, plus one.
pub open spec fn spec_overdue(e: TimerEntry, tick: u64) -> nat {
    if e.target_tick <= tick {
        (tick - e.target_tick + 1) as nat
    } else {
        0
    }
}

/// The total overdue measure of a queue; firing strictly shrinks it, which
/// bounds the catching up a single tick can do.
pub open spec fn spec_overdue_sum(q: Seq<TimerEntry>, tick: u64) -> nat
    decreases q.len(),
{
    if q.len() == 0 {
        0
    } else {
        spec_overdue_sum(q.drop_last(), tick) + spec_overdue(q.last(), tick)
    }
}

proof fn lemma_overdue_remove(q: Seq<TimerEntry>, i: int, tick: u64)
    requires
        0 <= i < q.len(),
    ensures
        spec_overdue_sum(q.remove(i), tick) + spec_overdue(q[i], tick) == spec_overdue_sum(q, tick),
    decreases q.len(),
{
    if i == q.len() - 1 {
        assert(q.remove(i) =~= q.drop_last());
    } else {
        lemma_overdue_remove(q.drop_last(), i, tick);
        assert(q.remove(i).drop_last() =~= q.drop_last().remove(i));
        assert(q.remove(i).last() == q.last());
        assert(q.drop_last()[i] == q[i]);
    }
}

proof fn lemma_overdue_push(q: Seq<TimerEntry>, e: TimerEntry, tick: u64)
    ensures
        spec_overdue_sum(q.push(e), tick) == spec_overdue_sum(q, tick) + spec_overdue(e, tick),
{
    assert(q.push(e).drop_last() =~= q);
    assert(q.push(e).last() == e);
}

/// A timeout as it stands after firing once: a oneshot is unchanged (and
/// about to be dropped), a periodic timeout is re-armed one interval later,
/// capped at the top of the tick range.
pub open spec fn spec_rearmed(e: TimerEntry) -> TimerEntry {
    match e.task {
        TimerTask::Oneshot => e,
        TimerTask::Periodic { interval_ticks } => TimerEntry {
            target_tick: if e.target_tick + interval_ticks <= u64::MAX {
                (e.target_tick + interval_ticks) as u64
            } else {
                u64::MAX
            },
            task_id: e.task_id,
            task: e.task,
        },
    }
}

proof fn lemma_contains_after_remove<A>(q: Seq<A>, i: int, e: A)
    requires
        0 <= i < q.len(),
        q.contains(e),
        e != q[i],
    ensures
        q.remove(i).contains(e),
{
    let w = choose|w: int| 0 <= w < q.len() && q[w] == e;
    if w < i {
        assert(q.remove(i)[w] == e);
    } else {
        assert(q.remove(i)[w - 1] == e);
    }
}

proof fn lemma_contains_after_push<A>(q: Seq<A>, x: A, e: A)
    requires
        q.contains(e),
    ensures
        q.push(x).contains(e),
{
    let w = choose|w: int| 0 <= w < q.len() && q[w] == e;
    assert(q.push(x)[w] == e);
}

impl Timer {
    pub closed spec fn spec_queue(&self) -> Seq<TimerEntry> {
        self.queue@
    }

    pub closed spec fn spec_next_task_id(&self) -> int {
        self.next_task_id as int
    }

    pub closed spec fn spec_tick(&self) -> u64 {
        self.tick
    }

    /// Periodic timeouts always move forward when re-armed, and ids come
    /// from the counter.
    pub open spec fn wf(&self) -> bool {
        forall|k: int|
            0 <= k < self.spec_queue().len() ==> ((#[trigger] self.spec_queue()[k]).task matches
                TimerTask::Periodic { interval_ticks } ==> interval_ticks
                >= 1) && self.spec_queue()[k].task_id < self.spec_next_task_id()
    }

    pub fn new() -> (t: Timer)
        ensures
            t.wf(),
            t.spec_queue() == Seq::<TimerEntry>::empty(),
            t.spec_tick() == 0,
            t.spec_next_task_id() == 0,
    {
        Timer { queue: Vec::new(), next_task_id: 0, tick: 0 }
    }

    pub fn get_tick(&self) -> (t: u64)
        ensures
            t == self.spec_tick(),
    {
        self.tick
    }

    /// Registers a oneshot timeout due `delay_millis` from now, and returns
    /// its id; the caller keeps the callback under that id.
    pub fn register(&mut self, delay_millis: u64) -> (id: usize)
        requires
            old(self).wf(),
            old(self).spec_tick() + delay_millis / MILLISEC_PER_TICK <= u64::MAX,
            old(self).spec_next_task_id() < usize::MAX,
        ensures
            final(self).wf(),
            id == old(self).spec_next_task_id(),
            final(self).spec_next_task_id() == old(self).spec_next_task_id() + 1,
            final(self).spec_tick() == old(self).spec_tick(),
            final(self).spec_queue() == old(self).spec_queue().push(
                TimerEntry {
                    target_tick: (old(self).spec_tick() + delay_millis / MILLISEC_PER_TICK) as u64,
                    task_id: id,
                    task: TimerTask::Oneshot,
                },
            ),
    {
        let id = self.next_task_id;
        let entry = TimerEntry {
            target_tick: self.tick + delay_millis / MILLISEC_PER_TICK,
            task_id: id,
            task: TimerTask::Oneshot,
        };
        self.queue.push(entry);
        self.next_task_id = self.next_task_id + 1;
        id
    }

    /// Registers a periodic timeout first due `initial_delay_millis` from
    /// now and re-armed every `interval_millis` thereafter, and returns its
    /// id. Intervals under one tick cannot be honoured: the queue would
    /// never drain.
    pub fn schedule(&mut self, initial_delay_millis: u64, interval_millis: u64) -> (id: usize)
        requires
            old(self).wf(),
            interval_millis >= MILLISEC_PER_TICK,
            old(self).spec_tick() + initial_delay_millis / MILLISEC_PER_TICK <= u64::MAX,
            old(self).spec_next_task_id() < usize::MAX,
        ensures
            final(self).wf(),
            id == old(self).spec_next_task_id(),
            final(self).spec_next_task_id() == old(self).spec_next_task_id() + 1,
            final(self).spec_tick() == old(self).spec_tick(),
            final(self).spec_queue() == old(self).spec_queue().push(
                TimerEntry {
                    target_tick: (old(self).spec_tick() + initial_delay_millis
                        / MILLISEC_PER_TICK) as u64,
                    task_id: id,
                    task: TimerTask::Periodic {
                        interval_ticks: (interval_millis / MILLISEC_PER_TICK) as u64,
                    },
                },
            ),
    {
        proof {
            vstd::arithmetic::div_mod::lemma_div_is_ordered(
                MILLISEC_PER_TICK as int,
                interval_millis as int,
                MILLISEC_PER_TICK as int,
            );
        }
        let id = self.next_task_id;
        let entry = TimerEntry {
            target_tick: self.tick + initial_delay_millis / MILLISEC_PER_TICK,
            task_id: id,
            task: TimerTask::Periodic { interval_ticks: interval_millis / MILLISEC_PER_TICK },
        };
        self.queue.push(entry);
        self.next_task_id = self.next_task_id + 1;
        id
    }

    /// Advances the clock one tick and fires everything that is due, in
    /// deadline order: every timeout due by the new tick has its id in the
    /// returned list (once per firing), a periodic timeout reaching its
    /// deadline at this tick is re-armed one interval later, and when the
    /// call returns nothing in the queue is due any more. Timeouts due
    /// later survive untouched.
    pub fn tick(&mut self) -> (fired: Vec<usize>)
        requires
            old(self).wf(),
            old(self).spec_tick() + 1 < u64::MAX,
        ensures
            final(self).wf(),
            final(self).spec_tick() == old(self).spec_tick() + 1,
            final(self).spec_next_task_id() == old(self).spec_next_task_id(),
            forall|k: int|
                0 <= k < final(self).spec_queue().len() ==> (#[trigger] final(self).spec_queue()[k]).target_tick > final(self).spec_tick(),
            forall|k: int|
                0 <= k < fired@.len() ==> (#[trigger] fired@[k]) < old(self).spec_next_task_id(),
            forall|k: int|
                0 <= k < old(self).spec_queue().len() && (#[trigger] old(self).spec_queue()[k]).target_tick <= old(self).spec_tick() + 1 ==> fired@.contains(
                    old(self).spec_queue()[k].task_id,
                ),
            forall|k: int|
                0 <= k < old(self).spec_queue().len() && (#[trigger] old(self).spec_queue()[k]).target_tick > old(self).spec_tick() + 1 ==> final(self).spec_queue().contains(old(self).spec_queue()[k]),
            forall|k: int|
                0 <= k < old(self).spec_queue().len() && (#[trigger] old(self).spec_queue()[k]).task is Periodic && old(self).spec_queue()[k].target_tick == old(self).spec_tick() + 1 ==> final(self).spec_queue().contains(
                    spec_rearmed(old(self).spec_queue()[k]),
                ),
            forall|k: int|
                0 <= k < old(self).spec_queue().len() && (#[trigger] old(self).spec_queue()[k]).task is Periodic ==> exists|j: int|
                    0 <= j < final(self).spec_queue().len() && (#[trigger] final(self).spec_queue()[j]).task_id == old(self).spec_queue()[k].task_id && final(self).spec_queue()[j].task == old(self).spec_queue()[k].task,
    {
        self.tick = self.tick + 1;
        let mut fired: Vec<usize> = Vec::new();
        proof {
            assert forall|k: int|
                0 <= k < old(self).spec_queue().len() implies self.spec_queue().contains(
                #[trigger] old(self).spec_queue()[k],
            ) by {
                assert(self.queue@[k] == old(self).spec_queue()[k]);
            }
        }
        loop
            invariant
                self.wf(),
                self.tick == old(self).spec_tick() + 1,
                self.tick < u64::MAX,
                self.next_task_id == old(self).next_task_id,
                forall|k: int|
                    0 <= k < fired@.len() ==> (#[trigger] fired@[k]) < self.spec_next_task_id(),
                // a timeout already due is either fired or still queued
                forall|k: int|
                    0 <= k < old(self).spec_queue().len() && (#[trigger] old(self).spec_queue()[k]).target_tick <= self.tick ==> (fired@.contains(
                        old(self).spec_queue()[k].task_id,
                    ) || self.spec_queue().contains(old(self).spec_queue()[k])),
                // timeouts due later are still queued unchanged
                forall|k: int|
                    0 <= k < old(self).spec_queue().len() && (#[trigger] old(self).spec_queue()[k]).target_tick > self.tick ==> self.spec_queue().contains(
                        old(self).spec_queue()[k],
                    ),
                // a periodic timeout due exactly now is queued as it was or
                // already re-armed
                forall|k: int|
                    0 <= k < old(self).spec_queue().len() && (#[trigger] old(self).spec_queue()[k]).task is Periodic && old(self).spec_queue()[k].target_tick
                        == self.tick ==> (self.spec_queue().contains(old(self).spec_queue()[k])
                        || self.spec_queue().contains(spec_rearmed(old(self).spec_queue()[k]))),
                // every periodic timeout keeps a successor with its id and kind
                forall|k: int|
                    0 <= k < old(self).spec_queue().len() && (#[trigger] old(self).spec_queue()[k]).task is Periodic ==> exists|j: int|
                        0 <= j < self.spec_queue().len() && (#[trigger] self.spec_queue()[j]).task_id
                            == old(self).spec_queue()[k].task_id && self.spec_queue()[j].task
                            == old(self).spec_queue()[k].task,
            ensures
                forall|k: int|
                    0 <= k < self.queue@.len() ==> (#[trigger] self.queue@[k]).target_tick
                        > self.tick,
                forall|k: int|
                    0 <= k < old(self).spec_queue().len() && (#[trigger] old(self).spec_queue()[k]).target_tick <= self.tick ==> fired@.contains(
                        old(self).spec_queue()[k].task_id,
                    ),
                forall|k: int|
                    0 <= k < old(self).spec_queue().len() && (#[trigger] old(self).spec_queue()[k]).task is Periodic && old(self).spec_queue()[k].target_tick
                        == self.tick ==> self.spec_queue().contains(
                        spec_rearmed(old(self).spec_queue()[k]),
                    ),
            decreases spec_overdue_sum(self.queue@, self.tick),
        {
            // Find the entry with the least (deadline, id), if any is due.
            let mut best: usize = 0;
            let mut found = false;
            let mut j: usize = 0;
            while j < self.queue.len()
                invariant
                    j <= self.queue@.len(),
                    found ==> best < j && self.queue@[best as int].target_tick <= self.tick,
                    !found ==> forall|k: int|
                        0 <= k < j ==> (#[trigger] self.queue@[k]).target_tick > self.tick,
                decreases self.queue@.len() - j,
            {
                if self.queue[j].target_tick <= self.tick {
                    if !found {
                        best = j;
                        found = true;
                    } else {
                        let better = self.queue[j].target_tick < self.queue[best].target_tick || (
                        self.queue[j].target_tick == self.queue[best].target_tick
                            && self.queue[j].task_id < self.queue[best].task_id);
                        if better {
                            best = j;
                        }
                    }
                }
                j = j + 1;
            }
            if !found {
                proof {
                    // Nothing queued is due, so every due timeout has fired
                    // and every periodic timeout due at this tick has been
                    // re-armed.
                    assert forall|k: int|
                        0 <= k < old(self).spec_queue().len() && (#[trigger] old(self).spec_queue()[k]).target_tick <= self.tick implies fired@.contains(
                        old(self).spec_queue()[k].task_id,
                    ) by {
                        let x = old(self).spec_queue()[k];
                        if self.spec_queue().contains(x) {
                            let w = choose|w: int|
                                0 <= w < self.queue@.len() && self.queue@[w] == x;
                            assert(self.queue@[w].target_tick > self.tick);
                        }
                    }
                    assert forall|k: int|
                        0 <= k < old(self).spec_queue().len() && (#[trigger] old(self).spec_queue()[k]).task is Periodic && old(self).spec_queue()[k].target_tick == self.tick implies self.spec_queue().contains(
                        spec_rearmed(old(self).spec_queue()[k]),
                    ) by {
                        let x = old(self).spec_queue()[k];
                        if self.spec_queue().contains(x) {
                            let w = choose|w: int|
                                0 <= w < self.queue@.len() && self.queue@[w] == x;
                            assert(self.queue@[w].target_tick > self.tick);
                        }
                    }
                }
                break ;
            }
            let ghost q0 = self.queue@;
            let ghost tick_now = self.tick;
            proof {
                assert(found ==> q0[best as int].target_tick <= tick_now);
                assert((q0[best as int].task matches TimerTask::Periodic { interval_ticks }
                    ==> interval_ticks >= 1) && q0[best as int].task_id < self.spec_next_task_id());
            }
            let entry = self.queue.remove(best);
            let ghost f0 = fired@;
            fired.push(entry.task_id);
            let replacement: Option<TimerEntry> = match entry.task {
                TimerTask::Oneshot => None,
                TimerTask::Periodic { interval_ticks } => {
                    let target_tick = if entry.target_tick <= u64::MAX - interval_ticks {
                        entry.target_tick + interval_ticks
                    } else {
                        u64::MAX
                    };
                    Some(TimerEntry { target_tick, task_id: entry.task_id, task: entry.task })
                },
            };
            let ghost q1 = self.queue@;
            proof {
                lemma_overdue_remove(q0, best as int, tick_now);
                assert(q1 =~= q0.remove(best as int));
                assert(spec_overdue(entry, tick_now) >= 1);
                assert(replacement is Some ==> replacement->0 == spec_rearmed(entry)
                    && spec_overdue(replacement->0, tick_now) < spec_overdue(entry, tick_now));
                if replacement is Some {
                    lemma_overdue_push(q1, replacement->0, tick_now);
                }
            }
            if let Some(r) = replacement {
                self.queue.push(r);
            }
            proof {
                let q2 = self.queue@;
                let f1 = fired@;
                assert(f1 == f0.push(entry.task_id));
                assert(f1[f1.len() - 1] == entry.task_id);
                // The fired list only grows, and the removed entry's queue
                // places are taken over by the fired record or the re-armed
                // entry; everything else survives by its old place.
                assert forall|e: TimerEntry|
                    q0.contains(e) && e != entry implies #[trigger] q2.contains(e) by {
                    lemma_contains_after_remove(q0, best as int, e);
                    if q1 != q2 {
                        lemma_contains_after_push(q1, spec_rearmed(entry), e);
                    }
                }
                assert forall|id: usize| f0.contains(id) implies #[trigger] f1.contains(id) by {
                    lemma_contains_after_push(f0, entry.task_id, id);
                }
                assert forall|k: int|
                    0 <= k < old(self).spec_queue().len() && (#[trigger] old(self).spec_queue()[k]).target_tick <= self.tick implies (f1.contains(
                    old(self).spec_queue()[k].task_id,
                ) || q2.contains(old(self).spec_queue()[k])) by {
                    let x = old(self).spec_queue()[k];
                    if x == entry {
                        assert(f1.contains(x.task_id));
                    }
                }
                assert forall|k: int|
                    0 <= k < old(self).spec_queue().len() && (#[trigger] old(self).spec_queue()[k]).task is Periodic && old(self).spec_queue()[k].target_tick
                        == self.tick implies (q2.contains(old(self).spec_queue()[k])
                    || q2.contains(spec_rearmed(old(self).spec_queue()[k]))) by {
                    let x = old(self).spec_queue()[k];
                    assert((old(self).spec_queue()[k].task matches TimerTask::Periodic {
                        interval_ticks,
                    } ==> interval_ticks >= 1));
                    if q0.contains(x) {
                        if x == entry {
                            assert(q2[q2.len() - 1] == spec_rearmed(entry));
                        }
                    } else {
                        // Already re-armed; being due exactly now, the
                        // re-armed copy lies past the tick, so it is not the
                        // entry just removed.
                        assert(spec_rearmed(x).target_tick > tick_now);
                        assert(spec_rearmed(x) != entry);
                    }
                }
                assert forall|k: int|
                    0 <= k < old(self).spec_queue().len() && (#[trigger] old(self).spec_queue()[k]).task is Periodic implies exists|j: int|
                    0 <= j < q2.len() && (#[trigger] q2[j]).task_id == old(self).spec_queue()[k].task_id && q2[j].task == old(self).spec_queue()[k].task by {
                    let x = old(self).spec_queue()[k];
                    let s = choose|j: int|
                        0 <= j < q0.len() && (#[trigger] q0[j]).task_id == x.task_id && q0[j].task
                            == x.task;
                    let sv = q0[s];
                    if sv == entry {
                        assert(q2[q2.len() - 1] == spec_rearmed(entry));
                        assert(q2[q2.len() - 1].task_id == x.task_id);
                        assert(q2[q2.len() - 1].task == x.task);
                    } else {
                        assert(q2.contains(sv));
                        let w = choose|w: int| 0 <= w < q2.len() && q2[w] == sv;
                        assert(q2[w].task_id == x.task_id && q2[w].task == x.task);
                    }
                }
            }
        }
        fired
    }
}

} // verus!
