//! Kernel events and how they are fired: messages are sent to the GUI
//! task's queue and the task is woken; redraw requests go through a bounded
//! side queue that collapses to a full redraw when it overflows.

use std::collections::VecDeque;
use vstd::prelude::*;

use crate::graphics::{Point, Rectangle};
use crate::gui::window_manager::WindowId;
use crate::keyboard::KeyCode;
use crate::task::{
    spec_awake_word, spec_state_mutation, MachineState, Receiver, SpawnContext, TaskBuilder,
    TaskManager, TypedTaskHandle,
};

verus! {

/// How many redraw requests may pile up before they are collapsed.
pub const MAX_PENDING_REDRAW: usize = 10;

#[derive(Copy, Clone, PartialEq, Eq, Hash, Debug, Structural)]
pub enum Event {
    Drag { start: Point, end: Point },
    KeyPress(KeyCode),
    Redraw,
    RedrawWindow(WindowId),
    RedrawArea(Rectangle),
}

/// The pending redraw requests, oldest first; the kernel serialises access
/// to it with its interrupt-safe lock.
pub struct RedrawQueue {
    queue: VecDeque<Event>,
}

impl View for RedrawQueue {
    type V = Seq<Event>;

    closed spec fn view(&self) -> Seq<Event> {
        self.queue@
    }
}

impl RedrawQueue {
    pub fn new() -> (q: RedrawQueue)
        ensures
            q@ == Seq::<Event>::empty(),
    {
        RedrawQueue { queue: VecDeque::new() }
    }

    /// Takes the oldest pending redraw request, if any.
    pub fn pop_front(&mut self) -> (r: Option<Event>)
        ensures
            old(self)@.len() == 0 ==> r is None && final(self)@ == old(self)@,
            old(self)@.len() > 0 ==> r == Some(old(self)@[0]) && final(self)@ == old(
                self,
            )@.drop_first(),
    {
        self.queue.pop_front()
    }

    /// Drops every pending request.
    pub fn clear(&mut self)
        ensures
            final(self)@ == Seq::<Event>::empty(),
    {
        self.queue.clear();
    }
}

/// Replaces all pending redraw requests with one whole-screen redraw, and
/// wakes the GUI task to handle it.
pub fn fire_redraw(queue: &mut RedrawQueue, m: &mut TaskManager, gui: &TypedTaskHandle<Event>)
    requires
        old(m).wf(),
        gui.valid(old(m)),
    ensures
        final(queue)@ =~= seq![Event::Redraw],
        final(m).wf(),
        spec_state_mutation(
            *old(m),
            *final(m),
            gui.spec_id(),
            spec_awake_word(old(m).task_state(gui.spec_id())),
        ),
{
    queue.queue.clear();
    queue.queue.push_back(Event::Redraw);
    gui.awake(m);
}

/// Queues a redraw of one window; when the queue is full the requests are
/// collapsed by clearing them, leaving a later whole-screen redraw to catch
/// up.
pub fn fire_redraw_window(
    queue: &mut RedrawQueue,
    m: &mut TaskManager,
    gui: &TypedTaskHandle<Event>,
    id: WindowId,
)
    requires
        old(m).wf(),
        gui.valid(old(m)),
    ensures
        old(queue)@.len() < MAX_PENDING_REDRAW ==> final(queue)@ == old(queue)@.push(
            Event::RedrawWindow(id),
        ),
        old(queue)@.len() >= MAX_PENDING_REDRAW ==> final(queue)@ == Seq::<Event>::empty(),
        final(m).wf(),
        spec_state_mutation(
            *old(m),
            *final(m),
            gui.spec_id(),
            spec_awake_word(old(m).task_state(gui.spec_id())),
        ),
{
    if queue.queue.len() < MAX_PENDING_REDRAW {
        queue.queue.push_back(Event::RedrawWindow(id));
    } else {
        queue.queue.clear();
    }
    gui.awake(m);
}

/// Queues a redraw of one screen area, collapsing like `fire_redraw_window`
/// when the queue is full.
pub fn fire_redraw_area(
    queue: &mut RedrawQueue,
    m: &mut TaskManager,
    gui: &TypedTaskHandle<Event>,
    area: Rectangle,
)
    requires
        old(m).wf(),
        gui.valid(old(m)),
    ensures
        old(queue)@.len() < MAX_PENDING_REDRAW ==> final(queue)@ == old(queue)@.push(
            Event::RedrawArea(area),
        ),
        old(queue)@.len() >= MAX_PENDING_REDRAW ==> final(queue)@ == Seq::<Event>::empty(),
        final(m).wf(),
        spec_state_mutation(
            *old(m),
            *final(m),
            gui.spec_id(),
            spec_awake_word(old(m).task_state(gui.spec_id())),
        ),
{
    if queue.queue.len() < MAX_PENDING_REDRAW {
        queue.queue.push_back(Event::RedrawArea(area));
    } else {
        queue.queue.clear();
    }
    gui.awake(m);
}

/// Builds the event machinery: the scheduler with the GUI's event receiver
/// on the main task, plus the USB host-controller event task, spawned at
/// high priority with a large stack. The kernel stores the returned handles
/// where its interrupt handlers can reach them.
pub fn initialize(
    machine: MachineState,
    idle_entry_point: u64,
    idle_spawn: SpawnContext,
    xhci_entry_point: u64,
    xhci_spawn: SpawnContext,
) -> (r: (TaskManager, Receiver<Event>, TypedTaskHandle<Event>, TypedTaskHandle<u8>, Receiver<u8>))
    requires
        idle_spawn.stack_bottom % 16 == 0,
        idle_spawn.stack_bottom >= 8,
        xhci_spawn.stack_bottom % 16 == 0,
        xhci_spawn.stack_bottom >= 8,
    ensures
        ({
            let m = r.0;
            &&& m.wf()
            &&& m.task_count() == 3
            &&& m.spec_tasks()[2].spec_name() == "xhci"
            &&& m.spec_tasks()[2].spec_priority() == 10
            &&& m.spec_tasks()[2].is_waking()
            &&& m.spec_tasks()[2].spec_stack_size() == 10 * 1024 * 1024
            &&& m.spec_current_task() == 0
        }),
        r.1@ == Seq::<Event>::empty(),
        r.2.spec_id() == 0,
        r.3.spec_id() == 2,
        r.4@ == Seq::<u8>::empty(),
        r.4.spec_handle_id() == 2,
{
    let (mut manager, receiver, gui_handle) = crate::task::initialize::<Event>(
        machine,
        idle_entry_point,
        idle_spawn,
    );
    let builder: TaskBuilder<u8> = TaskBuilder::new("xhci", xhci_entry_point).set_priority(
        10,
    ).set_stack_size(10 * 1024 * 1024);
    let (xhci_handle, xhci_receiver) = manager.add_task(builder, xhci_spawn);
    (manager, receiver, gui_handle, xhci_handle, xhci_receiver)
}

/// One round of the GUI task's event loop: take the oldest message if there
/// is one, else the oldest pending redraw request, and otherwise try to go
/// to sleep — which fails, leaving the task awake for the re-check, if any
/// wake arrived after the state word was observed at the top of the round.
/// The surrounding loop dispatches the returned event and yields when there
/// is none.
pub fn poll_event(
    m: &mut TaskManager,
    receiver: &mut Receiver<Event>,
    redraw_queue: &mut RedrawQueue,
) -> (r: Option<Event>)
    requires
        old(m).wf(),
        0 <= old(receiver).spec_handle_id() < old(m).task_count(),
    ensures
        final(m).wf(),
        final(receiver).spec_handle_id() == old(receiver).spec_handle_id(),
        old(receiver)@.len() > 0 ==> {
            &&& r == Some(old(receiver)@[0])
            &&& final(receiver)@ == old(receiver)@.drop_first()
            &&& final(redraw_queue)@ == old(redraw_queue)@
            &&& *final(m) == *old(m)
        },
        old(receiver)@.len() == 0 && old(redraw_queue)@.len() > 0 ==> {
            &&& r == Some(old(redraw_queue)@[0])
            &&& final(redraw_queue)@ == old(redraw_queue)@.drop_first()
            &&& final(receiver)@ == old(receiver)@
            &&& *final(m) == *old(m)
        },
        old(receiver)@.len() == 0 && old(redraw_queue)@.len() == 0 ==> {
            &&& r is None
            &&& final(receiver)@ == old(receiver)@
            &&& final(redraw_queue)@ == old(redraw_queue)@
            &&& !final(m).task_waking(old(receiver).spec_handle_id())
        },
{
    let handle = receiver.handle();
    let state = handle.load_state(m);
    if let Some(event) = receiver.try_dequeue() {
        return Some(event);
    }
    if let Some(event) = redraw_queue.pop_front() {
        return Some(event);
    }
    handle.try_compare_and_sleep(m, state);
    None
}

/// Notifies the USB host-controller task that an interrupt arrived: a
/// message whose payload does not matter, plus a wake.
pub fn fire_xhci(
    m: &mut TaskManager,
    xhci: &TypedTaskHandle<u8>,
    xhci_receiver: &mut Receiver<u8>,
)
    requires
        old(m).wf(),
        xhci.valid(old(m)),
        old(xhci_receiver).spec_handle_id() == xhci.spec_id(),
    ensures
        final(m).wf(),
        final(xhci_receiver)@ == old(xhci_receiver)@.push(0u8),
        spec_state_mutation(
            *old(m),
            *final(m),
            xhci.spec_id(),
            spec_awake_word(old(m).task_state(xhci.spec_id())),
        ),
{
    xhci.send(m, xhci_receiver, 0)
}

/// Delivers a mouse drag to the GUI task and wakes it.
pub fn fire_drag(
    m: &mut TaskManager,
    gui: &TypedTaskHandle<Event>,
    gui_receiver: &mut Receiver<Event>,
    start: Point,
    end: Point,
)
    requires
        old(m).wf(),
        gui.valid(old(m)),
        old(gui_receiver).spec_handle_id() == gui.spec_id(),
    ensures
        final(m).wf(),
        final(gui_receiver)@ == old(gui_receiver)@.push(Event::Drag { start, end }),
        spec_state_mutation(
            *old(m),
            *final(m),
            gui.spec_id(),
            spec_awake_word(old(m).task_state(gui.spec_id())),
        ),
{
    gui.send(m, gui_receiver, Event::Drag { start, end })
}

/// Delivers a key press to the GUI task and wakes it.
pub fn fire_key_press(
    m: &mut TaskManager,
    gui: &TypedTaskHandle<Event>,
    gui_receiver: &mut Receiver<Event>,
    keycode: KeyCode,
)
    requires
        old(m).wf(),
        gui.valid(old(m)),
        old(gui_receiver).spec_handle_id() == gui.spec_id(),
    ensures
        final(m).wf(),
        final(gui_receiver)@ == old(gui_receiver)@.push(Event::KeyPress(keycode)),
        spec_state_mutation(
            *old(m),
            *final(m),
            gui.spec_id(),
            spec_awake_word(old(m).task_state(gui.spec_id())),
        ),
{
    gui.send(m, gui_receiver, Event::KeyPress(keycode))
}

} // verus!
