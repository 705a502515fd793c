use pomelo_kernel::timer::{Timer, MILLISEC_PER_TICK, TARGET_FREQUENCY};

#[test]
fn tick_constants() {
    assert_eq!(TARGET_FREQUENCY, 100);
    assert_eq!(MILLISEC_PER_TICK, 10);
}

#[test]
fn oneshot_fires_once_at_its_deadline() {
    let mut t = Timer::new();
    let id = t.register(20);  // due at tick 2
    assert_eq!(t.get_tick(), 0);

    assert_eq!(t.tick(), Vec::<usize>::new());
    assert_eq!(t.get_tick(), 1);
    assert_eq!(t.tick(), vec![id]);
    assert_eq!(t.tick(), Vec::<usize>::new());
}

#[test]
fn periodic_fires_every_interval() {
    let mut t = Timer::new();
    let id = t.schedule(10, 20);  // first at tick 1, then every 2 ticks
    assert_eq!(t.tick(), vec![id]);
    assert_eq!(t.tick(), Vec::<usize>::new());
    assert_eq!(t.tick(), vec![id]);
    assert_eq!(t.tick(), Vec::<usize>::new());
    assert_eq!(t.tick(), vec![id]);
}

#[test]
fn due_timeouts_fire_in_deadline_order() {
    let mut t = Timer::new();
    let late = t.register(20);
    let early = t.register(10);
    assert_eq!(t.tick(), vec![early]);
    assert_eq!(t.tick(), vec![late]);
}

#[test]
fn simultaneous_deadlines_fire_in_registration_order() {
    let mut t = Timer::new();
    let a = t.register(10);
    let b = t.register(10);
    let c = t.register(10);
    assert_eq!(t.tick(), vec![a, b, c]);
}

#[test]
fn ids_are_assigned_in_order() {
    let mut t = Timer::new();
    assert_eq!(t.register(10), 0);
    assert_eq!(t.schedule(10, 30), 1);
    assert_eq!(t.register(50), 2);
}
