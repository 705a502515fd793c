use pomelo_kernel::events::{
    fire_drag, fire_key_press, fire_redraw, fire_redraw_area, fire_redraw_window, fire_xhci,
    poll_event, Event, RedrawQueue, MAX_PENDING_REDRAW,
};
use pomelo_kernel::graphics::{Point, Rectangle, Size, Vector2d};
use pomelo_kernel::gui::window_manager::{WindowId, WindowState};
use pomelo_kernel::keyboard::{KeyCode, Modifiers};
use pomelo_kernel::task::{initialize, MachineState, SpawnContext};

fn machine() -> MachineState {
    MachineState { cr3: 0, cs: 0, ss: 0, fs: 0, gs: 0 }
}

fn spawn_ctx() -> SpawnContext {
    SpawnContext { receiver_address: 0, stack_bottom: 64 }
}

#[test]
fn redraw_queue_collapses_when_full() {
    let (mut m, _rx, gui) = initialize::<Event>(machine(), 0x9000, spawn_ctx());
    let mut q = RedrawQueue::new();
    let mut counter: usize = 0;

    for _ in 0..MAX_PENDING_REDRAW {
        let id = WindowId::generate(&mut counter);
        fire_redraw_window(&mut q, &mut m, &gui, id);
    }
    // The queue is full now: one more request collapses it.
    let id = WindowId::generate(&mut counter);
    fire_redraw_window(&mut q, &mut m, &gui, id);
    assert_eq!(q.pop_front(), None);
}

#[test]
fn full_redraw_replaces_pending_requests() {
    let (mut m, _rx, gui) = initialize::<Event>(machine(), 0x9000, spawn_ctx());
    let mut q = RedrawQueue::new();
    let area = Rectangle::new(Point::new(0, 0), Size::new(5, 5));

    fire_redraw_area(&mut q, &mut m, &gui, area);
    fire_redraw_area(&mut q, &mut m, &gui, area);
    fire_redraw(&mut q, &mut m, &gui);
    assert_eq!(q.pop_front(), Some(Event::Redraw));
    assert_eq!(q.pop_front(), None);
}

#[test]
fn events_reach_the_gui_task_queue() {
    let (mut m, mut rx, gui) = initialize::<Event>(machine(), 0x9000, spawn_ctx());
    let key = KeyCode(Modifiers::from_bits_truncate(0), 4);

    fire_drag(&mut m, &gui, &mut rx, Point::new(1, 2), Point::new(3, 4));
    fire_key_press(&mut m, &gui, &mut rx, key);

    assert_eq!(rx.try_dequeue(), Some(Event::Drag { start: Point::new(1, 2), end: Point::new(3, 4) }));
    assert_eq!(rx.try_dequeue(), Some(Event::KeyPress(key)));
    assert_eq!(rx.try_dequeue(), None);
}

#[test]
fn event_polling_prefers_messages_then_redraws_then_sleeps() {
    let (mut m, mut rx, gui) = initialize::<Event>(machine(), 0x9000, spawn_ctx());
    let mut q = RedrawQueue::new();
    let area = Rectangle::new(Point::new(0, 0), Size::new(5, 5));

    fire_redraw_area(&mut q, &mut m, &gui, area);
    fire_key_press(&mut m, &gui, &mut rx, KeyCode(Modifiers::from_bits_truncate(0), 4));

    // Direct messages first, then pending redraws.
    assert!(matches!(poll_event(&mut m, &mut rx, &mut q), Some(Event::KeyPress(_))));
    assert_eq!(poll_event(&mut m, &mut rx, &mut q), Some(Event::RedrawArea(area)));

    // With both queues drained the task goes to sleep.
    assert_eq!(poll_event(&mut m, &mut rx, &mut q), None);
    assert!(!gui.waking(&m));

    // A new event wakes it again.
    fire_drag(&mut m, &gui, &mut rx, Point::new(0, 0), Point::new(1, 1));
    assert!(gui.waking(&m));
}

#[test]
fn event_machinery_spawns_the_xhci_task() {
    let (mut m, mut gui_rx, gui, xhci, mut xhci_rx) = pomelo_kernel::events::initialize(
        machine(),
        0x9000,
        spawn_ctx(),
        0xA000,
        spawn_ctx(),
    );

    fire_xhci(&mut m, &xhci, &mut xhci_rx);
    assert!(xhci.waking(&m));
    assert_eq!(xhci_rx.try_dequeue(), Some(0));
    assert_eq!(xhci.priority(&m), 10);

    fire_key_press(&mut m, &gui, &mut gui_rx, KeyCode(Modifiers::from_bits_truncate(0), 5));
    assert!(matches!(gui_rx.try_dequeue(), Some(Event::KeyPress(_))));
}

#[test]
fn window_ids_are_unique_and_increasing() {
    let mut counter: usize = 0;
    let a = WindowId::generate(&mut counter);
    let b = WindowId::generate(&mut counter);
    let c = WindowId::generate(&mut counter);
    assert_ne!(a, b);
    assert_ne!(b, c);
    assert_ne!(a, c);
    assert_eq!(counter, 3);
}

#[test]
fn window_moves_are_clamped_to_the_screen() {
    let mut counter: usize = 0;
    let id = WindowId::generate(&mut counter);
    let mut w = WindowState::new(id, Size::new(100, 100));

    let r = w.move_relative(Vector2d::new(30, 40));
    assert_eq!(r.start_pos, Point::new(0, 0));
    assert_eq!(r.end_pos, Point::new(30, 40));

    let r = w.move_relative(Vector2d::new(1000, -1000));
    assert_eq!(r.end_pos, Point::new(100, 0));
}
