//! The task scheduler: a table of tasks with atomic-style scheduling
//! metadata, a lazily rebuilt priority-filtered run queue, and the saved
//! register image each context switch reads and writes.
//!
//! All shared scheduling state lives in one [`TaskManager`] value that the
//! kernel wraps in a single interrupt-safe lock; a [`TaskHandle`] names a
//! task by its id, and every handle operation takes the manager explicitly.
//! Each task's state word packs a monotonically increasing generation
//! counter with a waking flag in bit 0; any change to it also bumps the
//! manager's global configuration generation, which is what tells the
//! scheduler that its run queue is stale.

use std::collections::VecDeque;
use vstd::prelude::*;

use crate::mpsc::{MPSCConsumer, MPSCProducer};
use crate::Error;

verus! {

pub type TaskPriority = u8;

/// How often the preemption countdown expires, in switches per second.
pub const PREEMPTION_FREQUENCY: u32 = 50;

/// Timer ticks granted to a task before the preemption hook requests a switch.
pub const TICKS_PER_PREEMPTION: u32 = crate::timer::TARGET_FREQUENCY / PREEMPTION_FREQUENCY;

/// Whether a state word has its waking flag (bit 0) set.
pub open spec fn spec_waking(state: u64) -> bool {
    state % 2 == 1
}

/// A state word with its generation advanced by one step, wrapping around at
/// the top of the range.
pub open spec fn spec_bump(state: u64) -> u64 {
    if state + 2 > u64::MAX {
        (state + 2 - 0x1_0000_0000_0000_0000) as u64
    } else {
        (state + 2) as u64
    }
}

/// The state word after a wake: generation advanced, waking flag set.
pub open spec fn spec_awake_word(state: u64) -> u64 {
    (spec_bump(state) + 1 - spec_bump(state) % 2) as u64
}

/// The state word after being put to sleep: generation advanced, waking flag
/// cleared.
pub open spec fn spec_sleep_word(state: u64) -> u64 {
    (spec_bump(state) - spec_bump(state) % 2) as u64
}

/// A generation counter advanced by one, wrapping around at the top.
pub open spec fn spec_next_generation(g: u64) -> u64 {
    if g == u64::MAX {
        0
    } else {
        (g + 1) as u64
    }
}

/// Wake and sleep always move the state word: the generation half advances,
/// so no later word ever equals an earlier observation. This is what makes
/// the compare-and-sleep primitive race free: a consumer that observed word
/// `s` before a wake intervened can no longer sleep with `s` as its witness.
pub proof fn lemma_state_word_never_reobserved(s: u64)
    ensures
        spec_awake_word(s) != s,
        spec_sleep_word(s) != s,
        spec_waking(spec_awake_word(s)),
        !spec_waking(spec_sleep_word(s)),
{
}

fn bump_word(state: u64) -> (r: u64)
    ensures
        r == spec_bump(state),
{
    if state <= u64::MAX - 2 {
        state + 2
    } else {
        state - (u64::MAX - 1)
    }
}

fn set_waking_bit(word: u64) -> (r: u64)
    ensures
        r == (word + 1 - word % 2) as u64,
        r == word || r == word + 1,
        spec_waking(r),
{
    proof {
        lemma_set_bit0(word);
    }
    word | 1
}

fn clear_waking_bit(word: u64) -> (r: u64)
    ensures
        r == (word - word % 2) as u64,
        r == word || r == word - 1,
        !spec_waking(r),
{
    proof {
        lemma_clear_bit0(word);
    }
    word & 0xffff_ffff_ffff_fffe
}

proof fn lemma_set_bit0(x: u64)
    by (bit_vector)
    ensures
        x | 1 == x + 1 - x % 2,
{
}

proof fn lemma_clear_bit0(x: u64)
    by (bit_vector)
    ensures
        x & 0xffff_ffff_ffff_fffe == x - x % 2,
{
}

/// The registers the manager copies into a freshly primed context so that a
/// new task starts in the same address space and segments as the kernel; the
/// platform layer reads them from the CPU once, at scheduler construction.
#[derive(Clone, Copy, PartialEq, Eq, Structural, Debug)]
pub struct MachineState {
    pub cr3: u64,
    pub cs: u64,
    pub ss: u64,
    pub fs: u64,
    pub gs: u64,
}

/// Per-spawn addresses that only the platform layer knows: where the task's
/// boxed receiver was placed, and where the bottom (highest address) of its
/// freshly allocated stack lies.
#[derive(Clone, Copy, PartialEq, Eq, Structural, Debug)]
pub struct SpawnContext {
    pub receiver_address: u64,
    pub stack_bottom: u64,
}

/// The complete saved register image of a task, in the layout the raw switch
/// routine saves and restores: address-space root, instruction pointer,
/// flags, segment selectors, general-purpose registers, and the extended
/// (`fxsave`) register area.
pub struct TaskContext {
    pub cr3: u64,
    pub rip: u64,
    pub rflags: u64,
    pub reserved1: u64,
    pub cs: u64,
    pub ss: u64,
    pub fs: u64,
    pub gs: u64,
    pub rax: u64,
    pub rbx: u64,
    pub rcx: u64,
    pub rdx: u64,
    pub rdi: u64,
    pub rsi: u64,
    pub rsp: u64,
    pub rbp: u64,
    pub r8: u64,
    pub r9: u64,
    pub r10: u64,
    pub r11: u64,
    pub r12: u64,
    pub r13: u64,
    pub r14: u64,
    pub r15: u64,
    pub fxsave_area: Vec<u8>,
}

pub const FXSAVE_AREA_SIZE: usize = 512;

/// Offset of the MXCSR word inside the `fxsave` area.
pub const MXCSR_OFFSET: usize = 24;

impl TaskContext {
    pub open spec fn wf(&self) -> bool {
        self.fxsave_area@.len() == FXSAVE_AREA_SIZE
    }

    /// An all-zero register image; the running task's registers are saved
    /// over it the first time the scheduler switches away from that task.
    pub fn zeroed() -> (c: TaskContext)
        ensures
            c.wf(),
            c.rip == 0 && c.rsp == 0 && c.rflags == 0 && c.cr3 == 0,
            c.rdi == 0 && c.rsi == 0,
            forall|i: int| 0 <= i < c.fxsave_area@.len() ==> c.fxsave_area@[i] == 0,
    {
        let mut fxsave_area: Vec<u8> = Vec::new();
        let mut i: usize = 0;
        while i < FXSAVE_AREA_SIZE
            invariant
                i <= FXSAVE_AREA_SIZE,
                fxsave_area@.len() == i,
                forall|j: int| 0 <= j < i ==> fxsave_area@[j] == 0,
            decreases FXSAVE_AREA_SIZE - i,
        {
            fxsave_area.push(0);
            i = i + 1;
        }
        TaskContext {
            cr3: 0,
            rip: 0,
            rflags: 0,
            reserved1: 0,
            cs: 0,
            ss: 0,
            fs: 0,
            gs: 0,
            rax: 0,
            rbx: 0,
            rcx: 0,
            rdx: 0,
            rdi: 0,
            rsi: 0,
            rsp: 0,
            rbp: 0,
            r8: 0,
            r9: 0,
            r10: 0,
            r11: 0,
            r12: 0,
            r13: 0,
            r14: 0,
            r15: 0,
            fxsave_area,
        }
    }

    /// Primes a context so that its first resumption starts executing
    /// `entry_point` with the receiver and argument already in the argument
    /// registers of the calling convention, on a 16-byte aligned stack that
    /// looks like a call frame, with interrupts enabled and the MXCSR
    /// exception mask set.
    pub fn prime(
        machine: &MachineState,
        entry_point: u64,
        receiver_address: u64,
        arg: u64,
        stack_bottom: u64,
    ) -> (c: TaskContext)
        requires
            stack_bottom % 16 == 0,
            stack_bottom >= 8,
        ensures
            c.wf(),
            c.rip == entry_point,
            c.rdi == receiver_address,
            c.rsi == arg,
            c.cr3 == machine.cr3,
            c.cs == machine.cs && c.ss == machine.ss && c.fs == machine.fs && c.gs == machine.gs,
            c.rflags == 0x202,
            c.rsp == stack_bottom - 8,
            c.rsp % 16 == 8,
            c.fxsave_area@.len() == FXSAVE_AREA_SIZE,
            forall|i: int|
                0 <= i < c.fxsave_area@.len() ==> c.fxsave_area@[i] == (if i == MXCSR_OFFSET {
                    0x80u8
                } else if i == MXCSR_OFFSET + 1 {
                    0x1fu8
                } else {
                    0u8
                }),
    {
        let mut c = TaskContext::zeroed();
        c.rip = entry_point;
        c.rdi = receiver_address;
        c.rsi = arg;
        c.cr3 = machine.cr3;
        c.rflags = 0x202;  // the interrupt flag
        c.cs = machine.cs;
        c.ss = machine.ss;
        c.fs = machine.fs;
        c.gs = machine.gs;
        c.rsp = stack_bottom - 8;
        // Mask all MXCSR exceptions: 0x1f80 as little-endian bytes.
        c.fxsave_area[MXCSR_OFFSET] = 0x80;
        c.fxsave_area[MXCSR_OFFSET + 1] = 0x1f;
        c
    }
}

/// A task's dedicated stack allocation, tracked by its size; the memory
/// itself is owned by the platform layer, which hands its bottom address to
/// [`TaskContext::prime`].
pub struct TaskStack {
    size: usize,
}

impl TaskStack {
    pub closed spec fn spec_size(&self) -> usize {
        self.size
    }

    pub fn new(size: usize) -> (s: TaskStack)
        ensures
            s.spec_size() == size,
    {
        TaskStack { size }
    }
}

/// One task as the manager owns it: its scheduling metadata (name, priority,
/// packed state word), its saved register image, and its stack.
pub struct Task {
    name: &'static str,
    priority: TaskPriority,
    state: u64,
    context: TaskContext,
    stack: TaskStack,
}

impl Task {
    pub closed spec fn spec_name(&self) -> &'static str {
        self.name
    }

    pub closed spec fn spec_priority(&self) -> TaskPriority {
        self.priority
    }

    pub closed spec fn spec_state(&self) -> u64 {
        self.state
    }

    pub closed spec fn spec_context(&self) -> TaskContext {
        self.context
    }

    pub closed spec fn spec_stack_size(&self) -> usize {
        self.stack.spec_size()
    }

    pub open spec fn is_waking(&self) -> bool {
        spec_waking(self.spec_state())
    }

    pub open spec fn wf(&self) -> bool {
        self.spec_context().wf()
    }
}

/// A shared, copyable name for a task: all its mutable scheduling state
/// lives in the [`TaskManager`], so a handle is just the task's id, and
/// every operation on a handle takes the manager explicitly.
#[derive(Clone, Copy)]
pub struct TaskHandle {
    id: usize,
}

/// The scheduler: owns every task, a lazily rebuilt run queue of the ids of
/// the waking tasks at the highest priority, the generation up to which that
/// queue is current, and the id of the task now executing.
pub struct TaskManager {
    machine: MachineState,
    tasks: Vec<Task>,
    task_queue: VecDeque<usize>,
    current_generation: u64,
    global_generation: u64,
    current_task: usize,
    rebuild_count: Ghost<nat>,
}

impl TaskManager {
    pub closed spec fn spec_tasks(&self) -> Seq<Task> {
        self.tasks@
    }

    pub closed spec fn spec_task_queue(&self) -> Seq<usize> {
        self.task_queue@
    }

    pub closed spec fn spec_current_generation(&self) -> u64 {
        self.current_generation
    }

    pub closed spec fn spec_global_generation(&self) -> u64 {
        self.global_generation
    }

    pub closed spec fn spec_current_task(&self) -> int {
        self.current_task as int
    }

    pub closed spec fn spec_machine(&self) -> MachineState {
        self.machine
    }

    /// How many times the run queue has been rebuilt from the task table.
    pub closed spec fn spec_rebuild_count(&self) -> nat {
        self.rebuild_count@
    }

    pub open spec fn task_count(&self) -> nat {
        self.spec_tasks().len()
    }

    pub open spec fn task_state(&self, id: int) -> u64 {
        self.spec_tasks()[id].spec_state()
    }

    pub open spec fn task_priority(&self, id: int) -> TaskPriority {
        self.spec_tasks()[id].spec_priority()
    }

    pub open spec fn task_waking(&self, id: int) -> bool {
        self.spec_tasks()[id].is_waking()
    }

    /// The run queue only ever names tasks of the table, and every saved
    /// context has a complete extended-register area.
    pub open spec fn wf(&self) -> bool {
        &&& self.task_count() >= 1
        &&& 0 <= self.spec_current_task() < self.task_count()
        &&& forall|i: int| 0 <= i < self.spec_tasks().len() ==> (#[trigger] self.spec_tasks()[i]).wf()
        &&& forall|k: int|
            0 <= k < self.spec_task_queue().len() ==> (#[trigger] self.spec_task_queue()[k])
                < self.task_count()
    }
}

/// The highest priority among the waking tasks of the first `n` table
/// entries, and 0 when none of them is waking.
pub open spec fn spec_top_priority_prefix(tasks: Seq<Task>, n: int) -> int
    decreases n,
{
    if n <= 0 {
        0
    } else {
        let p = spec_top_priority_prefix(tasks, n - 1);
        let t = tasks[n - 1];
        if t.is_waking() && t.spec_priority() > p {
            t.spec_priority() as int
        } else {
            p
        }
    }
}

pub open spec fn spec_top_priority(tasks: Seq<Task>) -> int {
    spec_top_priority_prefix(tasks, tasks.len() as int)
}

/// The run queue a rebuild produces from the first `n` table entries: the
/// ids of their waking tasks at the prefix's top priority, in table order.
pub open spec fn spec_run_queue_prefix(tasks: Seq<Task>, n: int) -> Seq<usize>
    decreases n,
{
    if n <= 0 {
        Seq::empty()
    } else {
        let q = spec_run_queue_prefix(tasks, n - 1);
        let p = spec_top_priority_prefix(tasks, n - 1);
        let t = tasks[n - 1];
        if !t.is_waking() || t.spec_priority() < p {
            q
        } else if t.spec_priority() == p {
            q.push((n - 1) as usize)
        } else {
            Seq::empty().push((n - 1) as usize)
        }
    }
}

/// The run queue a rebuild produces from the whole task table.
pub open spec fn spec_run_queue(tasks: Seq<Task>) -> Seq<usize> {
    spec_run_queue_prefix(tasks, tasks.len() as int)
}

proof fn lemma_run_queue_prefix_characterization(tasks: Seq<Task>, n: int)
    requires
        0 <= n <= tasks.len(),
        tasks.len() <= usize::MAX,
    ensures
        forall|id: int|
            0 <= id < n ==> (spec_run_queue_prefix(tasks, n).contains(id as usize) <==> (
            tasks[id].is_waking() && tasks[id].spec_priority() == spec_top_priority_prefix(
                tasks,
                n,
            ))),
        forall|a: int, b: int|
            0 <= a < b < spec_run_queue_prefix(tasks, n).len() ==> spec_run_queue_prefix(tasks, n)[a]
                < spec_run_queue_prefix(tasks, n)[b],
        forall|k: int|
            0 <= k < spec_run_queue_prefix(tasks, n).len() ==> (#[trigger] spec_run_queue_prefix(
                tasks,
                n,
            )[k]) < n,
        forall|id: int|
            0 <= id < n && tasks[id].is_waking() ==> tasks[id].spec_priority()
                <= spec_top_priority_prefix(tasks, n),
        (spec_run_queue_prefix(tasks, n).len() > 0 <==> exists|id: int|
            0 <= id < n && tasks[id].is_waking()),
        !(exists|id: int| 0 <= id < n && tasks[id].is_waking()) ==> spec_top_priority_prefix(
            tasks,
            n,
        ) == 0,
    decreases n,
{
    if n > 0 {
        lemma_run_queue_prefix_characterization(tasks, n - 1);
        let q = spec_run_queue_prefix(tasks, n - 1);
        let qn = spec_run_queue_prefix(tasks, n);
        let p = spec_top_priority_prefix(tasks, n - 1);
        let t = tasks[n - 1];
        if t.is_waking() {
            assert(exists|id: int| 0 <= id < n && tasks[id].is_waking()) by {
                assert(0 <= n - 1 < n && tasks[n - 1].is_waking());
            }
            if t.spec_priority() < p {
                // A positive top priority comes from some waking task of the
                // shorter prefix, so the queue being extended is not empty.
                assert(q.len() > 0) by {
                    if !(exists|id: int| 0 <= id < n - 1 && tasks[id].is_waking()) {
                        assert(p == 0);
                    }
                }
            }
        }
        if !t.is_waking() || t.spec_priority() < p {
            assert(forall|id: int|
                0 <= id < n ==> (qn.contains(id as usize) <==> (tasks[id].is_waking()
                    && tasks[id].spec_priority() == spec_top_priority_prefix(tasks, n))));
        } else if t.spec_priority() == p {
            assert forall|id: int| 0 <= id < n implies (qn.contains(id as usize) <==> (
            tasks[id].is_waking() && tasks[id].spec_priority() == spec_top_priority_prefix(
                tasks,
                n,
            ))) by {
                if id < n - 1 {
                    if q.contains(id as usize) {
                        let k = choose|k: int| 0 <= k < q.len() && q[k] == id as usize;
                        assert(qn[k] == id as usize);
                    }
                    if qn.contains(id as usize) {
                        let k = choose|k: int| 0 <= k < qn.len() && qn[k] == id as usize;
                        if k < q.len() {
                            assert(q.contains(id as usize));
                        }
                    }
                } else {
                    assert(qn[qn.len() - 1] == id as usize);
                }
            }
        } else {
            assert(qn == Seq::<usize>::empty().push((n - 1) as usize));
            assert(qn[0] == (n - 1) as usize);
            assert forall|id: int| 0 <= id < n implies (qn.contains(id as usize) <==> (
            tasks[id].is_waking() && tasks[id].spec_priority() == spec_top_priority_prefix(
                tasks,
                n,
            ))) by {
                if id < n - 1 {
                    if qn.contains(id as usize) {
                        let k = choose|k: int| 0 <= k < qn.len() && qn[k] == id as usize;
                        assert(k == 0);
                    }
                }
            }
        }
    }
}

/// The run queue that a rebuild produces contains exactly the waking tasks
/// whose priority equals the top priority among all waking tasks; sleeping
/// tasks are excluded whatever their priority, lower-priority waking tasks
/// are excluded, the ids appear in strictly increasing table order (so there
/// are no duplicates), and the queue is empty exactly when no task is
/// waking.
/// Both managers agree on everything except one task's state word, now
/// `word`, and the global generation, which has advanced by one step.
pub open spec fn spec_state_mutation(m0: TaskManager, m1: TaskManager, id: int, word: u64) -> bool {
    &&& m1.spec_machine() == m0.spec_machine()
    &&& m1.spec_tasks().len() == m0.spec_tasks().len()
    &&& forall|j: int|
        0 <= j < m0.spec_tasks().len() && j != id ==> m1.spec_tasks()[j] == m0.spec_tasks()[j]
    &&& m1.task_state(id) == word
    &&& m1.spec_tasks()[id].spec_name() == m0.spec_tasks()[id].spec_name()
    &&& m1.spec_tasks()[id].spec_priority() == m0.spec_tasks()[id].spec_priority()
    &&& m1.spec_tasks()[id].spec_context() == m0.spec_tasks()[id].spec_context()
    &&& m1.spec_tasks()[id].spec_stack_size() == m0.spec_tasks()[id].spec_stack_size()
    &&& m1.spec_task_queue() == m0.spec_task_queue()
    &&& m1.spec_current_generation() == m0.spec_current_generation()
    &&& m1.spec_current_task() == m0.spec_current_task()
    &&& m1.spec_rebuild_count() == m0.spec_rebuild_count()
    &&& m1.spec_global_generation() == spec_next_generation(m0.spec_global_generation())
}

/// Both managers agree on everything except one task's priority, now `p`,
/// and the global generation, which has advanced by one step.
pub open spec fn spec_priority_mutation(
    m0: TaskManager,
    m1: TaskManager,
    id: int,
    p: TaskPriority,
) -> bool {
    &&& m1.spec_machine() == m0.spec_machine()
    &&& m1.spec_tasks().len() == m0.spec_tasks().len()
    &&& forall|j: int|
        0 <= j < m0.spec_tasks().len() && j != id ==> m1.spec_tasks()[j] == m0.spec_tasks()[j]
    &&& m1.task_priority(id) == p
    &&& m1.spec_tasks()[id].spec_name() == m0.spec_tasks()[id].spec_name()
    &&& m1.spec_tasks()[id].spec_state() == m0.spec_tasks()[id].spec_state()
    &&& m1.spec_tasks()[id].spec_context() == m0.spec_tasks()[id].spec_context()
    &&& m1.spec_tasks()[id].spec_stack_size() == m0.spec_tasks()[id].spec_stack_size()
    &&& m1.spec_task_queue() == m0.spec_task_queue()
    &&& m1.spec_current_generation() == m0.spec_current_generation()
    &&& m1.spec_current_task() == m0.spec_current_task()
    &&& m1.spec_rebuild_count() == m0.spec_rebuild_count()
    &&& m1.spec_global_generation() == spec_next_generation(m0.spec_global_generation())
}

fn next_generation_word(g: u64) -> (r: u64)
    ensures
        r == spec_next_generation(g),
{
    if g == u64::MAX {
        0
    } else {
        g + 1
    }
}

proof fn lemma_test_bit0(x: u64)
    by (bit_vector)
    ensures
        (x & 1 == 1) <==> (x % 2 == 1),
{
}

proof fn lemma_preserve_wf(m0: TaskManager, m1: TaskManager, id: int)
    requires
        m0.wf(),
        0 <= id < m0.task_count(),
        m1.spec_tasks().len() == m0.spec_tasks().len(),
        forall|j: int|
            0 <= j < m0.spec_tasks().len() && j != id ==> m1.spec_tasks()[j] == m0.spec_tasks()[j],
        m1.spec_tasks()[id].spec_context() == m0.spec_tasks()[id].spec_context(),
        m1.spec_task_queue() == m0.spec_task_queue(),
        m1.spec_current_task() == m0.spec_current_task(),
    ensures
        m1.wf(),
{
    assert forall|i: int| 0 <= i < m1.spec_tasks().len() implies (#[trigger] m1.spec_tasks()[i]).wf() by {
        if i != id {
            assert(m1.spec_tasks()[i] == m0.spec_tasks()[i]);
        }
    }
}

impl TaskHandle {
    pub closed spec fn spec_id(&self) -> int {
        self.id as int
    }

    /// Whether this handle names a task of the manager's table.
    pub open spec fn valid(&self, m: &TaskManager) -> bool {
        0 <= self.spec_id() < m.task_count()
    }

    pub fn priority(&self, m: &TaskManager) -> (p: TaskPriority)
        requires
            self.valid(m),
        ensures
            p == m.task_priority(self.spec_id()),
    {
        m.tasks[self.id].priority
    }

    pub fn waking(&self, m: &TaskManager) -> (w: bool)
        requires
            self.valid(m),
        ensures
            w == m.task_waking(self.spec_id()),
    {
        proof {
            lemma_test_bit0(m.tasks@[self.id as int].spec_state());
        }
        m.tasks[self.id].state & 1 == 1
    }

    pub fn load_state(&self, m: &TaskManager) -> (s: u64)
        requires
            self.valid(m),
        ensures
            s == m.task_state(self.spec_id()),
    {
        m.tasks[self.id].state
    }

    /// Requests a new priority for the task; the scheduler notices through
    /// the bumped global generation and rebuilds its run queue lazily.
    pub fn set_priority(&self, m: &mut TaskManager, priority: TaskPriority)
        requires
            self.valid(old(m)),
            old(m).wf(),
        ensures
            final(m).wf(),
            spec_priority_mutation(*old(m), *final(m), self.spec_id(), priority),
    {
        m.tasks[self.id].priority = priority;
        m.global_generation = next_generation_word(m.global_generation);
        proof {
            lemma_preserve_wf(*old(m), *m, self.id as int);
        }
    }

    /// Wakes the task: advances its generation and sets the waking flag, so
    /// any state word observed before this call is invalidated.
    pub fn awake(&self, m: &mut TaskManager)
        requires
            self.valid(old(m)),
            old(m).wf(),
        ensures
            final(m).wf(),
            spec_state_mutation(
                *old(m),
                *final(m),
                self.spec_id(),
                spec_awake_word(old(m).task_state(self.spec_id())),
            ),
            final(m).task_waking(self.spec_id()),
    {
        let word = set_waking_bit(bump_word(m.tasks[self.id].state));
        m.tasks[self.id].state = word;
        m.global_generation = next_generation_word(m.global_generation);
        proof {
            lemma_preserve_wf(*old(m), *m, self.id as int);
        }
    }

    /// Puts the task to sleep unconditionally: advances its generation and
    /// clears the waking flag.
    pub fn put_sleep(&self, m: &mut TaskManager)
        requires
            self.valid(old(m)),
            old(m).wf(),
        ensures
            final(m).wf(),
            spec_state_mutation(
                *old(m),
                *final(m),
                self.spec_id(),
                spec_sleep_word(old(m).task_state(self.spec_id())),
            ),
            !final(m).task_waking(self.spec_id()),
    {
        let word = clear_waking_bit(bump_word(m.tasks[self.id].state));
        m.tasks[self.id].state = word;
        m.global_generation = next_generation_word(m.global_generation);
        proof {
            lemma_preserve_wf(*old(m), *m, self.id as int);
        }
    }

    pub fn set_waking(&self, m: &mut TaskManager, waking: bool)
        requires
            self.valid(old(m)),
            old(m).wf(),
        ensures
            final(m).wf(),
            waking ==> spec_state_mutation(
                *old(m),
                *final(m),
                self.spec_id(),
                spec_awake_word(old(m).task_state(self.spec_id())),
            ),
            !waking ==> spec_state_mutation(
                *old(m),
                *final(m),
                self.spec_id(),
                spec_sleep_word(old(m).task_state(self.spec_id())),
            ),
            final(m).task_waking(self.spec_id()) == waking,
    {
        if waking {
            self.awake(m);
        } else {
            self.put_sleep(m);
        }
    }

    /// Goes to sleep only if the task's state word still equals `state`, the
    /// value the caller observed earlier. The attempt fails exactly when the
    /// word has moved in between — typically because new work arrived and a
    /// wake advanced the generation — and then leaves the manager untouched,
    /// telling the caller to re-check before trying again.
    pub fn try_compare_and_sleep(&self, m: &mut TaskManager, state: u64) -> (success: bool)
        requires
            self.valid(old(m)),
            old(m).wf(),
        ensures
            final(m).wf(),
            success == (old(m).task_state(self.spec_id()) == state),
            success ==> spec_state_mutation(
                *old(m),
                *final(m),
                self.spec_id(),
                spec_sleep_word(state),
            ) && !final(m).task_waking(self.spec_id()),
            !success ==> *final(m) == *old(m),
    {
        if m.tasks[self.id].state == state {
            let word = clear_waking_bit(bump_word(state));
            m.tasks[self.id].state = word;
            m.global_generation = next_generation_word(m.global_generation);
            proof {
                lemma_preserve_wf(*old(m), *m, self.id as int);
            }
            true
        } else {
            false
        }
    }
}

/// A switch decision: which task was running and which runs next. The
/// platform layer looks their saved contexts up and performs the raw
/// register swap after releasing the manager's lock.
#[derive(Clone, Copy)]
pub struct SwitchRequest {
    pub current: TaskHandle,
    pub next: TaskHandle,
    pub current_name: &'static str,
    pub next_name: &'static str,
}

#[derive(Clone, Copy, PartialEq, Eq, Structural, Debug)]
pub enum ContextSwitchError {
    NothingToRun,
}

/// The run queue left-rotated by one: round-robin within the top tier.
pub open spec fn spec_rotated_once(q: Seq<usize>) -> Seq<usize> {
    q.subrange(1, q.len() as int).push(q[0])
}

impl TaskManager {
    /// Rebuilds the run queue from the task table, but only when the global
    /// generation has moved past the cached one; otherwise this is free, so
    /// a switch request on an unchanged configuration does no rebuilding.
    fn refresh_task_queue_if_necessary(&mut self)
        requires
            old(self).wf(),
        ensures
            final(self).wf(),
            final(self).spec_tasks() == old(self).spec_tasks(),
            final(self).spec_machine() == old(self).spec_machine(),
            final(self).spec_global_generation() == old(self).spec_global_generation(),
            final(self).spec_current_task() == old(self).spec_current_task(),
            old(self).spec_global_generation() <= old(self).spec_current_generation() ==> *final(self) == *old(self),
            old(self).spec_global_generation() > old(self).spec_current_generation() ==> {
                &&& final(self).spec_task_queue() == spec_run_queue(old(self).spec_tasks())
                &&& final(self).spec_current_generation() == old(self).spec_global_generation()
                &&& final(self).spec_rebuild_count() == old(self).spec_rebuild_count() + 1
            },
    {
        if self.global_generation <= self.current_generation {
            return ;
        }
        self.task_queue.clear();
        let mut current_priority: TaskPriority = 0;
        let mut i: usize = 0;
        while i < self.tasks.len()
            invariant
                old(self).wf(),
                self.tasks@ == old(self).tasks@,
                self.machine == old(self).machine,
                self.current_task == old(self).current_task,
                self.current_generation == old(self).current_generation,
                self.global_generation == old(self).global_generation,
                self.rebuild_count == old(self).rebuild_count,
                i <= self.tasks@.len(),
                current_priority as int == spec_top_priority_prefix(self.tasks@, i as int),
                self.task_queue@ == spec_run_queue_prefix(self.tasks@, i as int),
                forall|k: int|
                    0 <= k < self.task_queue@.len() ==> (#[trigger] self.task_queue@[k]) < i,
            decreases self.tasks@.len() - i,
        {
            proof {
                lemma_test_bit0(self.tasks@[i as int].spec_state());
            }
            let waking = self.tasks[i].state & 1 == 1;
            if waking {
                let p = self.tasks[i].priority;
                if p == current_priority {
                    self.task_queue.push_back(i);
                } else if p > current_priority {
                    current_priority = p;
                    self.task_queue.clear();
                    self.task_queue.push_back(i);
                }
            }
            i = i + 1;
        }
        self.current_generation = self.global_generation;
        self.rebuild_count = Ghost(self.rebuild_count@ + 1);
    }

    /// Picks the task to run next: refreshes the run queue if the
    /// configuration changed, rotates the top tier by one for round-robin
    /// fairness, and hands back the pair of tasks involved in the switch.
    /// Fails with `NothingToRun` exactly when no task is eligible.
    pub fn start_context_switch(&mut self) -> (r: Result<SwitchRequest, ContextSwitchError>)
        requires
            old(self).wf(),
        ensures
            final(self).wf(),
            final(self).spec_tasks() == old(self).spec_tasks(),
            final(self).spec_machine() == old(self).spec_machine(),
            final(self).spec_global_generation() == old(self).spec_global_generation(),
            final(self).spec_current_generation() == if old(self).spec_global_generation() > old(self).spec_current_generation() {
                old(self).spec_global_generation()
            } else {
                old(self).spec_current_generation()
            },
            final(self).spec_rebuild_count() == old(self).spec_rebuild_count() + if old(self).spec_global_generation() > old(self).spec_current_generation() {
                1int
            } else {
                0int
            },
            ({
                let q0 = if old(self).spec_global_generation() > old(self).spec_current_generation() {
                    spec_run_queue(old(self).spec_tasks())
                } else {
                    old(self).spec_task_queue()
                };
                if q0.len() == 0 {
                    &&& r == Err::<SwitchRequest, ContextSwitchError>(
                        ContextSwitchError::NothingToRun,
                    )
                    &&& final(self).spec_task_queue() == q0
                    &&& final(self).spec_current_task() == old(self).spec_current_task()
                } else {
                    let q1 = spec_rotated_once(q0);
                    &&& final(self).spec_task_queue() == q1
                    &&& final(self).spec_current_task() == q1[0]
                    &&& r matches Ok(s) && s.next.spec_id() == q1[0] && s.current.spec_id() == old(self).spec_current_task() && s.current_name == old(self).spec_tasks()[old(self).spec_current_task()].spec_name() && s.next_name == old(self).spec_tasks()[q1[0] as int].spec_name()
                }
            }),
    {
        self.refresh_task_queue_if_necessary();
        if self.task_queue.len() > 0 {
            let front = self.task_queue.pop_front().unwrap();
            self.task_queue.push_back(front);
            proof {
                assert(self.task_queue@ =~= spec_rotated_once(old(self).spec_task_queue())
                    || self.task_queue@ =~= spec_rotated_once(
                    spec_run_queue(old(self).spec_tasks()),
                ));
            }
        }
        if self.task_queue.len() > 0 {
            let next_id = self.task_queue[0];
            let current_id = self.current_task;
            let current_name = self.tasks[current_id].name;
            let next_name = self.tasks[next_id].name;
            self.current_task = next_id;
            Ok(
                SwitchRequest {
                    current: TaskHandle { id: current_id },
                    next: TaskHandle { id: next_id },
                    current_name,
                    next_name,
                },
            )
        } else {
            Err(ContextSwitchError::NothingToRun)
        }
    }

    /// How many tasks the manager owns; tasks are never removed, so this
    /// only grows.
    pub fn num_tasks(&self) -> (n: usize)
        ensures
            n == self.task_count(),
    {
        self.tasks.len()
    }

    /// A handle to the task that is presently executing.
    pub fn current_handle(&self) -> (h: TaskHandle)
        requires
            self.wf(),
        ensures
            h.spec_id() == self.spec_current_task(),
            h.valid(self),
    {
        TaskHandle { id: self.current_task }
    }

    /// The saved register image of the named task, for the platform layer to
    /// hand to the raw switch routine.
    pub fn context_of(&self, h: &TaskHandle) -> (c: &TaskContext)
        requires
            self.wf(),
            h.valid(self),
        ensures
            *c == self.spec_tasks()[h.spec_id()].spec_context(),
    {
        &self.tasks[h.id].context
    }
}

/// The free-running preemption countdown the timer interrupt decrements; it
/// deliberately lives outside the manager so the interrupt handler can tick
/// it without taking the scheduler's lock.
pub struct PreemptionTick {
    ticks: u32,
}

impl PreemptionTick {
    pub closed spec fn spec_ticks(&self) -> u32 {
        self.ticks
    }

    /// Starts exhausted, so the first timer tick already requests a switch.
    pub fn new() -> (t: PreemptionTick)
        ensures
            t.spec_ticks() == 0,
    {
        PreemptionTick { ticks: 0 }
    }
}

/// One timer tick: counts the preemption quantum down (saturating at zero)
/// and reports whether it was already exhausted, in which case the interrupt
/// handler must invoke the switch machinery.
pub fn tick_and_check_context_switch(t: &mut PreemptionTick) -> (preempt: bool)
    ensures
        final(t).spec_ticks() == if old(t).spec_ticks() > 0 {
            old(t).spec_ticks() - 1
        } else {
            0
        },
        preempt == (old(t).spec_ticks() == 0),
{
    let prev = t.ticks;
    if prev > 0 {
        t.ticks = prev - 1;
    }
    prev == 0
}

/// Asks the scheduler for a switch decision and, when one is made, resets
/// the preemption countdown for the incoming task. The caller performs the
/// raw context swap only after releasing the manager's lock; when nothing is
/// runnable it should idle with interrupts enabled and retry.
pub fn try_switch_context(m: &mut TaskManager, ticks: &mut PreemptionTick) -> (r: Result<
    SwitchRequest,
    Error,
>)
    requires
        old(m).wf(),
    ensures
        final(m).wf(),
        final(m).spec_tasks() == old(m).spec_tasks(),
        final(m).spec_global_generation() == old(m).spec_global_generation(),
        ({
            let q0 = if old(m).spec_global_generation() > old(m).spec_current_generation() {
                spec_run_queue(old(m).spec_tasks())
            } else {
                old(m).spec_task_queue()
            };
            if q0.len() == 0 {
                &&& r matches Err(e) && e == Error::Whatever("Nothing to run")
                &&& final(m).spec_current_task() == old(m).spec_current_task()
                &&& *final(ticks) == *old(ticks)
            } else {
                let q1 = spec_rotated_once(q0);
                &&& final(m).spec_task_queue() == q1
                &&& final(m).spec_current_task() == q1[0]
                &&& r matches Ok(s) && s.next.spec_id() == q1[0] && s.current.spec_id() == old(m).spec_current_task()
                &&& final(ticks).spec_ticks() == TICKS_PER_PREEMPTION
            }
        }),
{
    match m.start_context_switch() {
        Ok(s) => {
            ticks.ticks = TICKS_PER_PREEMPTION;
            Ok(s)
        },
        Err(ContextSwitchError::NothingToRun) => Err(Error::Whatever("Nothing to run")),
    }
}

/// The run queue as it stands after `k` switch requests on a stable
/// configuration, each of which rotated it left by one.
pub open spec fn spec_rotated(q: Seq<usize>, k: int) -> Seq<usize> {
    Seq::new(q.len(), |i: int| q[(i + k) % (q.len() as int)])
}

pub proof fn lemma_rotated_zero(q: Seq<usize>)
    requires
        q.len() > 0,
    ensures
        spec_rotated(q, 0) =~= q,
{
    let n = q.len() as int;
    assert forall|i: int| 0 <= i < n implies spec_rotated(q, 0)[i] == q[i] by {
        vstd::arithmetic::div_mod::lemma_small_mod(i as nat, n as nat);
    }
}

/// One more switch request turns the `k`-times-rotated queue into the
/// `k + 1`-times-rotated one; together with `start_context_switch`'s
/// contract, the task selected by request number `k + 1` is `q[(k + 1) % n]`.
pub proof fn lemma_rotation_composes(q: Seq<usize>, k: int)
    requires
        q.len() > 0,
        k >= 0,
    ensures
        spec_rotated_once(spec_rotated(q, k)) =~= spec_rotated(q, k + 1),
{
    let n = q.len() as int;
    let rot = spec_rotated(q, k);
    assert forall|i: int| 0 <= i < n implies spec_rotated_once(rot)[i] == spec_rotated(q, k + 1)[i] by {
        if i < n - 1 {
            assert(spec_rotated_once(rot)[i] == rot[i + 1]);
        } else {
            assert(spec_rotated_once(rot)[i] == rot[0]);
            vstd::arithmetic::div_mod::lemma_mod_add_multiples_vanish(k, n);
        }
    }
}

/// Round-robin fairness: over any `n` consecutive switch requests on a
/// stable top-priority tier of size `n`, the selected tasks are exactly the
/// queued tasks, each the same number of times it occurs in the queue — and
/// the rebuilt queue never repeats a task, so each runs exactly once per
/// cycle.
pub proof fn lemma_round_robin_cycle(q: Seq<usize>, k: int)
    requires
        q.len() > 0,
        k >= 0,
    ensures
        spec_rotated(q, k).to_multiset() =~= q.to_multiset(),
{
    let n = q.len() as int;
    vstd::arithmetic::div_mod::lemma_mod_bound(k, n);
    let r = k % n;
    let a = q.subrange(r, n);
    let b = q.subrange(0, r);
    assert forall|i: int| 0 <= i < n implies spec_rotated(q, k)[i] == (a + b)[i] by {
        vstd::arithmetic::div_mod::lemma_fundamental_div_mod(k, n);
        vstd::arithmetic::div_mod::lemma_mod_multiples_vanish(k / n, i + r, n);
        assert((i + k) % n == (i + r) % n);
        if i + r < n {
            vstd::arithmetic::div_mod::lemma_small_mod((i + r) as nat, n as nat);
        } else {
            vstd::arithmetic::div_mod::lemma_mod_sub_multiples_vanish(i + r, n);
            assert((-n + (i + r)) % n == (i + r) % n);
            vstd::arithmetic::div_mod::lemma_small_mod((i + r - n) as nat, n as nat);
        }
    }
    assert(spec_rotated(q, k) =~= a + b);
    assert(q =~= b + a);
    vstd::seq_lib::lemma_multiset_commutative(a, b);
    vstd::seq_lib::lemma_multiset_commutative(b, a);
    assert(a.to_multiset().add(b.to_multiset()) =~= b.to_multiset().add(a.to_multiset()));
}

/// The tasks handed out by `n` consecutive switch requests on a stable
/// configuration whose run queue was `q`: the request that leaves the queue
/// rotated `start + i` times hands out the new head, `q[(start + i) %
/// q.len()]`, by `start_context_switch`'s contract together with
/// `lemma_rotation_composes`.
pub open spec fn spec_selections(q: Seq<usize>, start: int, n: int) -> Seq<usize> {
    Seq::new(n as nat, |i: int| q[(start + i) % (q.len() as int)])
}

proof fn lemma_prefix_count<A>(s: Seq<A>, n: int, x: A)
    requires
        0 <= n <= s.len(),
    ensures
        s.subrange(0, n).to_multiset().count(x) <= s.to_multiset().count(x),
{
    broadcast use vstd::multiset::group_multiset_axioms;

    let p = s.subrange(0, n);
    let rest = s.subrange(n, s.len() as int);
    assert(s =~= p + rest);
    vstd::seq_lib::lemma_multiset_commutative(p, rest);
}

/// Round-robin fairness, counted: across `n` consecutive switch requests on
/// a stable top tier whose run queue is the duplicate-free `q`, the task
/// `q[j]` is selected either `n / q.len()` or `n / q.len() + 1` times —
/// exactly `n / q.len()` times whenever the tier size divides `n`.
pub proof fn lemma_round_robin_counts(q: Seq<usize>, start: int, n: int, j: int)
    requires
        q.len() > 0,
        q.no_duplicates(),
        start >= 0,
        n >= 0,
        0 <= j < q.len(),
    ensures
        n / (q.len() as int) <= spec_selections(q, start, n).to_multiset().count(q[j]) <= n / (
        q.len() as int) + 1,
        n % (q.len() as int) == 0 ==> spec_selections(q, start, n).to_multiset().count(q[j]) == n
            / (q.len() as int),
    decreases n,
{
    broadcast use vstd::multiset::group_multiset_axioms;
    broadcast use vstd::seq_lib::group_to_multiset_ensures;

    let k = q.len() as int;
    let sel = spec_selections(q, start, n);
    let e = q[j];
    q.lemma_multiset_has_no_duplicates();
    assert(q.contains(e));
    assert(q.to_multiset().count(e) == 1);
    let rot = spec_rotated(q, start);
    lemma_round_robin_cycle(q, start);
    assert(rot.to_multiset().count(e) == 1);
    if n < k {
        assert(sel =~= rot.subrange(0, n));
        lemma_prefix_count(rot, n, e);
        vstd::arithmetic::div_mod::lemma_basic_div(n, k);
        if n % k == 0 {
            vstd::arithmetic::div_mod::lemma_small_mod(n as nat, k as nat);
            assert(n == 0);
            assert(sel.to_multiset().count(e) == 0) by {
                if sel.to_multiset().count(e) > 0 {
                    assert(sel.contains(e));
                }
            }
        }
    } else {
        let first = spec_selections(q, start, k);
        let rest = spec_selections(q, start + k, n - k);
        assert(sel =~= first + rest) by {
            assert forall|i: int| 0 <= i < n implies sel[i] == (first + rest)[i] by {
                if i >= k {
                    assert((start + k + (i - k)) == start + i);
                }
            }
        }
        assert(first =~= rot);
        vstd::seq_lib::lemma_multiset_commutative(first, rest);
        lemma_round_robin_counts(q, start + k, n - k, j);
        vstd::arithmetic::div_mod::lemma_div_plus_one(n - k, k);
        assert(n / k == 1 + (n - k) / k);
        vstd::arithmetic::div_mod::lemma_mod_sub_multiples_vanish(n, k);
        assert((n - k) % k == n % k);
        assert(sel.to_multiset().count(e) == 1 + rest.to_multiset().count(e));
    }
}

/// A description of a task to spawn: its name, the address of its entry
/// function, the value for its argument register, its stack size and its
/// scheduling priority. The type parameter is the message type of the
/// receiver the new task will be handed.
pub struct TaskBuilder<T> {
    name: &'static str,
    task_main: u64,
    arg: u64,
    stack_size: usize,
    priority: TaskPriority,
    _phantom: core::marker::PhantomData<T>,
}

impl<T> TaskBuilder<T> {
    pub closed spec fn spec_name(&self) -> &'static str {
        self.name
    }

    pub closed spec fn spec_task_main(&self) -> u64 {
        self.task_main
    }

    pub closed spec fn spec_arg(&self) -> u64 {
        self.arg
    }

    pub closed spec fn spec_stack_size(&self) -> usize {
        self.stack_size
    }

    pub closed spec fn spec_priority(&self) -> TaskPriority {
        self.priority
    }

    #[must_use]
    pub fn new(name: &'static str, task_main: u64) -> (b: TaskBuilder<T>)
        ensures
            b.spec_name() == name,
            b.spec_task_main() == task_main,
            b.spec_arg() == 0,
            b.spec_stack_size() == 512 * 1024,
            b.spec_priority() == 5,
    {
        TaskBuilder {
            name,
            task_main,
            arg: 0,
            stack_size: 512 * 1024,
            priority: 5,
            _phantom: core::marker::PhantomData,
        }
    }

    /// Like `new`, for an entry function that also takes a boxed argument;
    /// the caller passes the address it placed the argument at.
    #[must_use]
    pub fn new_with_arg(name: &'static str, task_main: u64, arg: u64) -> (b: TaskBuilder<T>)
        ensures
            b.spec_name() == name,
            b.spec_task_main() == task_main,
            b.spec_arg() == arg,
            b.spec_stack_size() == 128 * 1024,
            b.spec_priority() == 5,
    {
        TaskBuilder {
            name,
            task_main,
            arg,
            stack_size: 128 * 1024,
            priority: 5,
            _phantom: core::marker::PhantomData,
        }
    }

    #[must_use]
    pub fn set_stack_size(self, stack_size: usize) -> (b: TaskBuilder<T>)
        ensures
            b.spec_name() == self.spec_name(),
            b.spec_task_main() == self.spec_task_main(),
            b.spec_arg() == self.spec_arg(),
            b.spec_stack_size() == stack_size,
            b.spec_priority() == self.spec_priority(),
    {
        TaskBuilder { stack_size, ..self }
    }

    #[must_use]
    pub fn set_priority(self, priority: TaskPriority) -> (b: TaskBuilder<T>)
        ensures
            b.spec_name() == self.spec_name(),
            b.spec_task_main() == self.spec_task_main(),
            b.spec_arg() == self.spec_arg(),
            b.spec_stack_size() == self.spec_stack_size(),
            b.spec_priority() == priority,
    {
        TaskBuilder { priority, ..self }
    }
}

/// The key registers of a context primed from the given spawn description.
pub open spec fn spec_primed_context(
    c: TaskContext,
    machine: MachineState,
    entry_point: u64,
    receiver_address: u64,
    arg: u64,
    stack_bottom: u64,
) -> bool {
    &&& c.wf()
    &&& c.rip == entry_point
    &&& c.rdi == receiver_address
    &&& c.rsi == arg
    &&& c.cr3 == machine.cr3
    &&& c.cs == machine.cs && c.ss == machine.ss && c.fs == machine.fs && c.gs == machine.gs
    &&& c.rflags == 0x202
    &&& c.rsp == stack_bottom - 8
}

/// `m1` is `m0` with one task appended: named and prioritised as the builder
/// says, born waking with a fresh generation, its context primed to enter
/// the builder's entry function. Nothing else — not even the generations, so
/// the run queue is rebuilt only when some wake or priority change follows —
/// has moved.
pub open spec fn spec_task_added<T>(
    m0: TaskManager,
    m1: TaskManager,
    builder: TaskBuilder<T>,
    spawn: SpawnContext,
) -> bool {
    &&& m1.spec_tasks().len() == m0.spec_tasks().len() + 1
    &&& forall|j: int|
        0 <= j < m0.spec_tasks().len() ==> m1.spec_tasks()[j] == m0.spec_tasks()[j]
    &&& m1.spec_tasks().last().spec_name() == builder.spec_name()
    &&& m1.spec_tasks().last().spec_priority() == builder.spec_priority()
    &&& m1.spec_tasks().last().spec_state() == 1
    &&& m1.spec_tasks().last().is_waking()
    &&& m1.spec_tasks().last().spec_stack_size() == builder.spec_stack_size()
    &&& spec_primed_context(
        m1.spec_tasks().last().spec_context(),
        m0.spec_machine(),
        builder.spec_task_main(),
        spawn.receiver_address,
        builder.spec_arg(),
        spawn.stack_bottom,
    )
    &&& m1.spec_task_queue() == m0.spec_task_queue()
    &&& m1.spec_current_generation() == m0.spec_current_generation()
    &&& m1.spec_global_generation() == m0.spec_global_generation()
    &&& m1.spec_current_task() == m0.spec_current_task()
    &&& m1.spec_machine() == m0.spec_machine()
    &&& m1.spec_rebuild_count() == m0.spec_rebuild_count()
}

/// The receiving end a spawned task reads its messages from: its own task
/// handle, plus the consumer end of its message queue.
pub struct Receiver<T> {
    handle: TaskHandle,
    consumer: MPSCConsumer<T>,
}

/// A clonable handle to a task together with a producer for its typed
/// message queue: sending enqueues the value and wakes the task.
pub struct TypedTaskHandle<T> {
    inner: TaskHandle,
    producer: MPSCProducer<T>,
}

impl<T> View for Receiver<T> {
    type V = Seq<T>;

    closed spec fn view(&self) -> Seq<T> {
        self.consumer@
    }
}

impl<T> Receiver<T> {
    pub closed spec fn spec_handle_id(&self) -> int {
        self.handle.spec_id()
    }

    fn new(handle: TaskHandle) -> (r: Receiver<T>)
        ensures
            r@ == Seq::<T>::empty(),
            r.spec_handle_id() == handle.spec_id(),
    {
        Receiver { handle, consumer: MPSCConsumer::new() }
    }

    fn producer(&self) -> (p: MPSCProducer<T>) {
        self.consumer.producer()
    }

    pub fn approximate_num_messages(&self) -> (n: usize)
        ensures
            n == self@.len(),
    {
        self.consumer.approximate_len()
    }

    /// Takes the oldest pending message without blocking: `Some` exactly
    /// when one is queued.
    pub fn try_dequeue(&mut self) -> (r: Option<T>)
        ensures
            final(self).spec_handle_id() == old(self).spec_handle_id(),
            old(self)@.len() == 0 ==> r is None && final(self)@ == old(self)@,
            old(self)@.len() > 0 ==> r == Some(old(self)@[0]) && final(self)@ == old(
                self,
            )@.drop_first(),
    {
        self.consumer.dequeue()
    }

    /// One round of the blocking-receive loop: takes the oldest message if
    /// there is one; otherwise attempts to go to sleep, which succeeds only
    /// if the task's state word still equals `observed_state` — a wake that
    /// arrived since the caller loaded that word makes the sleep fail, so
    /// the caller re-checks the queue instead of sleeping through the
    /// wakeup. The surrounding kernel loop alternates this step with yields
    /// until a message arrives.
    pub fn try_dequeue_or_sleep(&mut self, m: &mut TaskManager, observed_state: u64) -> (r: Option<
        T,
    >)
        requires
            old(m).wf(),
            0 <= old(self).spec_handle_id() < old(m).task_count(),
        ensures
            final(self).spec_handle_id() == old(self).spec_handle_id(),
            final(m).wf(),
            old(self)@.len() > 0 ==> r == Some(old(self)@[0]) && final(self)@ == old(
                self,
            )@.drop_first() && *final(m) == *old(m),
            old(self)@.len() == 0 ==> {
                &&& r is None
                &&& final(self)@ == old(self)@
                &&& (old(m).task_state(old(self).spec_handle_id()) == observed_state
                    ==> spec_state_mutation(
                    *old(m),
                    *final(m),
                    old(self).spec_handle_id(),
                    spec_sleep_word(observed_state),
                ))
                &&& (old(m).task_state(old(self).spec_handle_id()) != observed_state ==> *final(m)
                    == *old(m))
            },
    {
        if let Some(v) = self.consumer.dequeue() {
            return Some(v);
        }
        self.handle.try_compare_and_sleep(m, observed_state);
        None
    }

    /// Takes the oldest pending message. In the running kernel a task blocks
    /// here until one arrives; a message can only be delivered through the
    /// scheduler running some other task, so this entry point asks its
    /// caller to have one pending already and the platform layer builds the
    /// actual waiting loop from `try_dequeue_or_sleep`.
    pub fn dequeue_or_wait(&mut self, m: &mut TaskManager) -> (v: T)
        requires
            old(m).wf(),
            0 <= old(self).spec_handle_id() < old(m).task_count(),
            old(self)@.len() > 0,
        ensures
            final(self).spec_handle_id() == old(self).spec_handle_id(),
            v == old(self)@[0],
            final(self)@ == old(self)@.drop_first(),
            *final(m) == *old(m),
    {
        let state = self.handle.load_state(m);
        match self.try_dequeue_or_sleep(m, state) {
            Some(v) => v,
            None => vstd::pervasive::unreached(),
        }
    }

    /// A typed handle for sending messages to this receiver's task.
    pub fn handle(&self) -> (h: TypedTaskHandle<T>)
        ensures
            h.spec_id() == self.spec_handle_id(),
    {
        TypedTaskHandle { inner: self.handle, producer: self.consumer.producer() }
    }
}

impl<T> Clone for TypedTaskHandle<T> {
    fn clone(&self) -> (r: Self)
        ensures
            r.spec_id() == self.spec_id(),
    {
        TypedTaskHandle { inner: self.inner, producer: self.producer.clone() }
    }
}

impl<T> TypedTaskHandle<T> {
    pub closed spec fn spec_id(&self) -> int {
        self.inner.spec_id()
    }

    pub open spec fn valid(&self, m: &TaskManager) -> bool {
        0 <= self.spec_id() < m.task_count()
    }

    pub fn priority(&self, m: &TaskManager) -> (p: TaskPriority)
        requires
            self.valid(m),
        ensures
            p == m.task_priority(self.spec_id()),
    {
        self.inner.priority(m)
    }

    pub fn waking(&self, m: &TaskManager) -> (w: bool)
        requires
            self.valid(m),
        ensures
            w == m.task_waking(self.spec_id()),
    {
        self.inner.waking(m)
    }

    pub fn load_state(&self, m: &TaskManager) -> (s: u64)
        requires
            self.valid(m),
        ensures
            s == m.task_state(self.spec_id()),
    {
        self.inner.load_state(m)
    }

    pub fn set_priority(&self, m: &mut TaskManager, priority: TaskPriority)
        requires
            self.valid(old(m)),
            old(m).wf(),
        ensures
            final(m).wf(),
            spec_priority_mutation(*old(m), *final(m), self.spec_id(), priority),
    {
        self.inner.set_priority(m, priority)
    }

    pub fn awake(&self, m: &mut TaskManager)
        requires
            self.valid(old(m)),
            old(m).wf(),
        ensures
            final(m).wf(),
            spec_state_mutation(
                *old(m),
                *final(m),
                self.spec_id(),
                spec_awake_word(old(m).task_state(self.spec_id())),
            ),
            final(m).task_waking(self.spec_id()),
    {
        self.inner.awake(m)
    }

    pub fn put_sleep(&self, m: &mut TaskManager)
        requires
            self.valid(old(m)),
            old(m).wf(),
        ensures
            final(m).wf(),
            spec_state_mutation(
                *old(m),
                *final(m),
                self.spec_id(),
                spec_sleep_word(old(m).task_state(self.spec_id())),
            ),
            !final(m).task_waking(self.spec_id()),
    {
        self.inner.put_sleep(m)
    }

    pub fn set_waking(&self, m: &mut TaskManager, waking: bool)
        requires
            self.valid(old(m)),
            old(m).wf(),
        ensures
            final(m).wf(),
            final(m).task_waking(self.spec_id()) == waking,
            waking ==> spec_state_mutation(
                *old(m),
                *final(m),
                self.spec_id(),
                spec_awake_word(old(m).task_state(self.spec_id())),
            ),
            !waking ==> spec_state_mutation(
                *old(m),
                *final(m),
                self.spec_id(),
                spec_sleep_word(old(m).task_state(self.spec_id())),
            ),
    {
        self.inner.set_waking(m, waking)
    }

    pub fn try_compare_and_sleep(&self, m: &mut TaskManager, state: u64) -> (success: bool)
        requires
            self.valid(old(m)),
            old(m).wf(),
        ensures
            final(m).wf(),
            success == (old(m).task_state(self.spec_id()) == state),
            success ==> spec_state_mutation(
                *old(m),
                *final(m),
                self.spec_id(),
                spec_sleep_word(state),
            ) && !final(m).task_waking(self.spec_id()),
            !success ==> *final(m) == *old(m),
    {
        self.inner.try_compare_and_sleep(m, state)
    }

    /// Delivers a value to the task: enqueues it behind the messages already
    /// pending and unconditionally wakes the task, so a consumer blocked in
    /// the compare-and-sleep loop either sees the message or fails to sleep.
    pub fn send(&self, m: &mut TaskManager, receiver: &mut Receiver<T>, value: T)
        requires
            self.valid(old(m)),
            old(m).wf(),
            old(receiver).spec_handle_id() == self.spec_id(),
        ensures
            final(m).wf(),
            final(receiver)@ == old(receiver)@.push(value),
            final(receiver).spec_handle_id() == old(receiver).spec_handle_id(),
            spec_state_mutation(
                *old(m),
                *final(m),
                self.spec_id(),
                spec_awake_word(old(m).task_state(self.spec_id())),
            ),
            final(m).task_waking(self.spec_id()),
    {
        self.producer.enqueue(&mut receiver.consumer, value);
        self.inner.awake(m);
    }
}

impl TaskManager {
    /// Registers a new task: assigns it the next id, primes its context so
    /// that its first resumption enters the builder's entry function, and
    /// adds it to the table in the waking state. Returns the typed handle
    /// for senders along with the receiver the new task will read from.
    pub fn add_task<T>(&mut self, task_builder: TaskBuilder<T>, spawn: SpawnContext) -> (r: (
        TypedTaskHandle<T>,
        Receiver<T>,
    ))
        requires
            old(self).wf(),
            spawn.stack_bottom % 16 == 0,
            spawn.stack_bottom >= 8,
            old(self).task_count() < usize::MAX,
        ensures
            final(self).wf(),
            spec_task_added(*old(self), *final(self), task_builder, spawn),
            r.0.spec_id() == old(self).task_count(),
            r.1.spec_handle_id() == old(self).task_count(),
            r.1@ == Seq::<T>::empty(),
    {
        let id = self.tasks.len();
        let handle = TaskHandle { id };
        let receiver = Receiver::new(handle);
        let producer = receiver.producer();
        let context = TaskContext::prime(
            &self.machine,
            task_builder.task_main,
            spawn.receiver_address,
            task_builder.arg,
            spawn.stack_bottom,
        );
        let task = Task {
            name: task_builder.name,
            priority: task_builder.priority,
            state: 1,
            context,
            stack: TaskStack::new(task_builder.stack_size),
        };
        self.tasks.push(task);
        proof {
            assert forall|i: int| 0 <= i < self.tasks@.len() implies (#[trigger] self.tasks@[i]).wf() by {
                if i < old(self).tasks@.len() {
                    assert(self.tasks@[i] == old(self).tasks@[i]);
                }
            }
            assert forall|k: int|
                0 <= k < self.spec_task_queue().len() implies (#[trigger] self.spec_task_queue()[k])
                < self.task_count() by {
                assert(old(self).spec_task_queue()[k] < old(self).task_count());
            }
        }
        (TypedTaskHandle { inner: handle, producer }, receiver)
    }
}

/// Builds the scheduler: installs the calling context as the "main" task
/// (its context is filled in at the first switch away from it) and spawns
/// the always-waking "idle" task at `idle_entry_point`, which guarantees
/// the run queue is never empty. The idle task has the lowest possible
/// priority, so it runs only when nothing else has work. Returns the
/// manager together with the main task's receiver and typed handle.
pub fn initialize<T>(
    machine: MachineState,
    idle_entry_point: u64,
    idle_spawn: SpawnContext,
) -> (r: (TaskManager, Receiver<T>, TypedTaskHandle<T>))
    requires
        idle_spawn.stack_bottom % 16 == 0,
        idle_spawn.stack_bottom >= 8,
    ensures
        ({
            let m = r.0;
            &&& m.wf()
            &&& m.task_count() == 2
            &&& m.spec_tasks()[0].spec_name() == "main"
            &&& m.spec_tasks()[0].spec_priority() == 10
            &&& m.spec_tasks()[0].spec_state() == 1
            &&& m.spec_tasks()[0].is_waking()
            &&& m.spec_tasks()[1].spec_name() == "idle"
            &&& m.spec_tasks()[1].spec_priority() == 0
            &&& m.spec_tasks()[1].spec_state() == 1
            &&& m.spec_tasks()[1].is_waking()
            &&& spec_primed_context(
                m.spec_tasks()[1].spec_context(),
                machine,
                idle_entry_point,
                idle_spawn.receiver_address,
                0,
                idle_spawn.stack_bottom,
            )
            &&& m.spec_current_task() == 0
            &&& m.spec_task_queue().len() == 0
            &&& m.spec_current_generation() == 0
            &&& m.spec_global_generation() == 1
            &&& m.spec_machine() == machine
            &&& m.spec_rebuild_count() == 0
        }),
        r.1@ == Seq::<T>::empty(),
        r.1.spec_handle_id() == 0,
        r.2.spec_id() == 0,
{
    let main_handle = TaskHandle { id: 0 };
    let receiver = Receiver::new(main_handle);
    let producer = receiver.producer();
    let main_task = Task {
        name: "main",
        priority: 10,
        state: 1,
        context: TaskContext::zeroed(),
        stack: TaskStack::new(0),
    };
    let mut tasks: Vec<Task> = Vec::new();
    tasks.push(main_task);
    let mut manager = TaskManager {
        machine,
        tasks,
        task_queue: VecDeque::new(),
        current_generation: 0,
        global_generation: 1,
        current_task: 0,
        rebuild_count: Ghost(0),
    };
    let idle_builder: TaskBuilder<()> = TaskBuilder::new("idle", idle_entry_point).set_priority(0);
    let (_idle_handle, _idle_receiver) = manager.add_task(idle_builder, idle_spawn);
    (manager, receiver, TypedTaskHandle { inner: main_handle, producer })
}

/// Spawns a task described by the builder; the scheduler assigns its id and
/// it becomes eligible to run once the next wake or priority change bumps
/// the generation and the run queue is rebuilt.
pub fn spawn_task<T>(m: &mut TaskManager, task_builder: TaskBuilder<T>, spawn: SpawnContext) -> (r:
    (TypedTaskHandle<T>, Receiver<T>))
    requires
        old(m).wf(),
        spawn.stack_bottom % 16 == 0,
        spawn.stack_bottom >= 8,
        old(m).task_count() < usize::MAX,
    ensures
        final(m).wf(),
        spec_task_added(*old(m), *final(m), task_builder, spawn),
        r.0.spec_id() == old(m).task_count(),
        r.1.spec_handle_id() == old(m).task_count(),
        r.1@ == Seq::<T>::empty(),
{
    m.add_task(task_builder, spawn)
}

/// A handle to the task that is presently executing, for a task that wants
/// to inspect or change its own scheduling state.
pub fn current_task(m: &TaskManager) -> (h: TaskHandle)
    requires
        m.wf(),
    ensures
        h.spec_id() == m.spec_current_task(),
        h.valid(m),
{
    m.current_handle()
}

pub proof fn lemma_run_queue_characterization(tasks: Seq<Task>)
    requires
        tasks.len() <= usize::MAX,
    ensures
        forall|id: int|
            0 <= id < tasks.len() ==> (spec_run_queue(tasks).contains(id as usize) <==> (
            tasks[id].is_waking() && tasks[id].spec_priority() == spec_top_priority(tasks))),
        forall|a: int, b: int|
            0 <= a < b < spec_run_queue(tasks).len() ==> spec_run_queue(tasks)[a] < spec_run_queue(
                tasks,
            )[b],
        spec_run_queue(tasks).no_duplicates(),
        forall|k: int|
            0 <= k < spec_run_queue(tasks).len() ==> (#[trigger] spec_run_queue(tasks)[k])
                < tasks.len(),
        forall|id: int|
            0 <= id < tasks.len() && tasks[id].is_waking() ==> tasks[id].spec_priority()
                <= spec_top_priority(tasks),
        (spec_run_queue(tasks).len() > 0 <==> exists|id: int|
            0 <= id < tasks.len() && tasks[id].is_waking()),
{
    lemma_run_queue_prefix_characterization(tasks, tasks.len() as int);
    let q = spec_run_queue(tasks);
    assert forall|a: int, b: int|
        0 <= a < q.len() && 0 <= b < q.len() && a != b implies q[a] != q[b] by {
        if a < b {
            assert(q[a] < q[b]);
        } else {
            assert(q[b] < q[a]);
        }
    }
}

} // verus!
