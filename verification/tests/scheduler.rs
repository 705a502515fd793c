use pomelo_kernel::Error;
use pomelo_kernel::task::{
    current_task, initialize, spawn_task, tick_and_check_context_switch, try_switch_context,
    MachineState, PreemptionTick, SpawnContext, TaskBuilder, TaskManager, TICKS_PER_PREEMPTION,
};

fn machine() -> MachineState {
    MachineState { cr3: 0x1000, cs: 0x08, ss: 0x10, fs: 0, gs: 0 }
}

fn spawn_at(name: &'static str, priority: u8) -> TaskBuilder<u8> {
    TaskBuilder::new(name, 0x2000).set_priority(priority)
}

fn spawn_ctx() -> SpawnContext {
    SpawnContext { receiver_address: 0, stack_bottom: 1024 * 16 }
}

fn next_name(m: &mut TaskManager, ticks: &mut PreemptionTick) -> &'static str {
    try_switch_context(m, ticks).expect("a task should be runnable").next_name
}

#[test]
fn priority_tiers_alternate() {
    // Three tasks at priorities {10, 10, 1}: the two top-priority tasks and
    // the equally-prioritised main task rotate; the priority-1 task never
    // runs until everything above it sleeps.
    let (mut m, _rx, main_handle) = initialize::<u8>(machine(), 0x9000, spawn_ctx());
    let (a, _rx_a) = spawn_task(&mut m, spawn_at("a", 10), spawn_ctx());
    let (b, _rx_b) = spawn_task(&mut m, spawn_at("b", 10), spawn_ctx());
    let (c, _rx_c) = spawn_task(&mut m, spawn_at("c", 1), spawn_ctx());
    let mut ticks = PreemptionTick::new();

    // The top tier is {main, a, b} in table order; each switch rotates it.
    let seq: Vec<&str> = (0..6).map(|_| next_name(&mut m, &mut ticks)).collect();
    assert_eq!(seq, vec!["a", "b", "main", "a", "b", "main"]);

    // With main asleep the two remaining top-priority tasks alternate.
    main_handle.put_sleep(&mut m);
    let seq: Vec<&str> = (0..4).map(|_| next_name(&mut m, &mut ticks)).collect();
    assert_eq!(seq, vec!["b", "a", "b", "a"]);

    // Once both sleep, the priority-1 task finally runs; the idle task, at
    // the lowest priority, takes over only when it too sleeps.
    a.put_sleep(&mut m);
    b.put_sleep(&mut m);
    assert_eq!(next_name(&mut m, &mut ticks), "c");
    assert_eq!(next_name(&mut m, &mut ticks), "c");
    c.put_sleep(&mut m);
    assert_eq!(next_name(&mut m, &mut ticks), "idle");
}

#[test]
fn lower_priority_runs_when_top_sleeps() {
    let (mut m, _rx, main_handle) = initialize::<u8>(machine(), 0x9000, spawn_ctx());
    let (_c, _rx_c) = spawn_task(&mut m, spawn_at("c", 6), spawn_ctx());
    let mut ticks = PreemptionTick::new();

    // main (priority 10) is alone at the top.
    assert_eq!(next_name(&mut m, &mut ticks), "main");
    assert_eq!(next_name(&mut m, &mut ticks), "main");

    // After main sleeps, c (priority 6) beats idle (priority 0).
    main_handle.put_sleep(&mut m);
    assert_eq!(next_name(&mut m, &mut ticks), "c");
}

#[test]
fn round_robin_is_fair_across_cycles() {
    // Across N consecutive switches with a stable tier of size 3, each tier
    // member is selected exactly N/3 times.
    let (mut m, _rx, _main) = initialize::<u8>(machine(), 0x9000, spawn_ctx());
    let (_a, _rx_a) = spawn_task(&mut m, spawn_at("a", 10), spawn_ctx());
    let (_b, _rx_b) = spawn_task(&mut m, spawn_at("b", 10), spawn_ctx());
    let mut ticks = PreemptionTick::new();

    let mut counts = std::collections::HashMap::new();
    for _ in 0..12 {
        *counts.entry(next_name(&mut m, &mut ticks)).or_insert(0) += 1;
    }
    assert_eq!(counts.get("main"), Some(&4));
    assert_eq!(counts.get("a"), Some(&4));
    assert_eq!(counts.get("b"), Some(&4));
}

#[test]
fn switches_do_not_rebuild_without_changes() {
    // A rebuild resets the run queue to table order, so if every switch
    // rebuilt, the same task would be selected every time. The rotation
    // advancing instead shows the queue survives untouched between
    // switches while no priority or wake state changes.
    let (mut m, _rx, _main) = initialize::<u8>(machine(), 0x9000, spawn_ctx());
    let (a, _rx_a) = spawn_task(&mut m, spawn_at("a", 10), spawn_ctx());
    let mut ticks = PreemptionTick::new();

    assert_eq!(next_name(&mut m, &mut ticks), "a");
    assert_eq!(next_name(&mut m, &mut ticks), "main");
    assert_eq!(next_name(&mut m, &mut ticks), "a");

    // A wake-state change bumps the generation; the next switch rebuilds,
    // restarting the rotation from table order.
    a.awake(&mut m);
    assert_eq!(next_name(&mut m, &mut ticks), "a");
    assert_eq!(next_name(&mut m, &mut ticks), "main");
}

#[test]
fn receiver_hands_out_a_typed_handle() {
    let (mut m, _rx, _main) = initialize::<u8>(machine(), 0x9000, spawn_ctx());
    let (_h, mut rx_h) = spawn_task(&mut m, spawn_at("worker", 7), spawn_ctx());

    let handle = rx_h.handle();
    handle.send(&mut m, &mut rx_h, 5);
    handle.send(&mut m, &mut rx_h, 6);
    assert_eq!(rx_h.try_dequeue(), Some(5));
    assert_eq!(rx_h.try_dequeue(), Some(6));
}

#[test]
fn compare_and_sleep_fails_after_wake() {
    // A wake between observing the state word and sleeping must make the
    // sleep attempt fail, leaving the task awake.
    let (mut m, _rx, _main) = initialize::<u8>(machine(), 0x9000, spawn_ctx());
    let (h, _rx_h) = spawn_task(&mut m, spawn_at("worker", 7), spawn_ctx());

    let observed = h.load_state(&mut m);
    h.awake(&mut m);  // work arrives between the check and the sleep
    assert!(!h.try_compare_and_sleep(&mut m, observed));
    assert!(h.waking(&m));

    // Without an intervening wake the sleep goes through.
    let observed = h.load_state(&mut m);
    assert!(h.try_compare_and_sleep(&mut m, observed));
    assert!(!h.waking(&m));
}

#[test]
fn state_word_operations() {
    let (mut m, _rx, _main) = initialize::<u8>(machine(), 0x9000, spawn_ctx());
    let (h, _rx_h) = spawn_task(&mut m, spawn_at("worker", 7), spawn_ctx());

    assert!(h.waking(&m));
    assert_eq!(h.priority(&m), 7);
    h.set_priority(&mut m, 3);
    assert_eq!(h.priority(&m), 3);

    let s0 = h.load_state(&mut m);
    h.set_waking(&mut m, false);
    assert!(!h.waking(&m));
    let s1 = h.load_state(&mut m);
    assert_ne!(s0, s1);
    h.set_waking(&mut m, true);
    assert!(h.waking(&m));
    let s2 = h.load_state(&mut m);
    assert_ne!(s1, s2);
}

#[test]
fn send_wakes_and_delivers() {
    let (mut m, _rx, _main) = initialize::<u8>(machine(), 0x9000, spawn_ctx());
    let (h, mut rx_h) = spawn_task(&mut m, spawn_at("worker", 7), spawn_ctx());

    h.put_sleep(&mut m);
    assert!(!h.waking(&m));

    let sender = h.clone();
    sender.send(&mut m, &mut rx_h, 42);
    assert!(h.waking(&m));
    assert_eq!(rx_h.approximate_num_messages(), 1);
    assert_eq!(rx_h.dequeue_or_wait(&mut m), 42);
    assert_eq!(rx_h.try_dequeue(), None);
}

#[test]
fn blocked_consumer_rechecks_instead_of_sleeping() {
    let (mut m, _rx, _main) = initialize::<u8>(machine(), 0x9000, spawn_ctx());
    let (h, mut rx_h) = spawn_task(&mut m, spawn_at("worker", 7), spawn_ctx());

    // Observe the queue empty, then let a wake intervene: the sleeping step
    // must fail and the task stays awake for the re-check.
    let observed = h.load_state(&mut m);
    h.awake(&mut m);
    assert_eq!(rx_h.try_dequeue_or_sleep(&mut m, observed), None);
    assert!(h.waking(&m));

    // With nothing intervening, the same step puts the task to sleep.
    let observed = h.load_state(&mut m);
    assert_eq!(rx_h.try_dequeue_or_sleep(&mut m, observed), None);
    assert!(!h.waking(&m));

    // A queued message is taken before any sleeping is attempted.
    h.send(&mut m, &mut rx_h, 9);
    let observed = h.load_state(&mut m);
    assert_eq!(rx_h.try_dequeue_or_sleep(&mut m, observed), Some(9));
    assert!(h.waking(&m));
}

#[test]
fn preemption_tick_counts_down() {
    let (mut m, _rx, _main) = initialize::<u8>(machine(), 0x9000, spawn_ctx());
    let mut ticks = PreemptionTick::new();

    // The countdown starts exhausted, so the first tick requests a switch.
    assert!(tick_and_check_context_switch(&mut ticks));

    // A successful switch resets the quantum.
    try_switch_context(&mut m, &mut ticks).expect("a task should be runnable");
    assert_eq!(TICKS_PER_PREEMPTION, 2);
    assert!(!tick_and_check_context_switch(&mut ticks));
    assert!(!tick_and_check_context_switch(&mut ticks));
    assert!(tick_and_check_context_switch(&mut ticks));
    assert!(tick_and_check_context_switch(&mut ticks));
}

#[test]
fn current_task_follows_switches() {
    let (mut m, _rx, main_handle) = initialize::<u8>(machine(), 0x9000, spawn_ctx());
    let mut ticks = PreemptionTick::new();

    let h = current_task(&m);
    assert_eq!(h.priority(&m), 10);

    main_handle.put_sleep(&mut m);
    let s = try_switch_context(&mut m, &mut ticks).expect("idle should be runnable");
    assert_eq!(s.current_name, "main");
    assert_eq!(s.next_name, "idle");
    assert_eq!(current_task(&m).priority(&m), 0);
}

#[test]
fn nothing_to_run_when_everything_sleeps() {
    let (mut m, _rx, main_handle) = initialize::<u8>(machine(), 0x9000, spawn_ctx());
    let mut ticks = PreemptionTick::new();

    // Put main and even the idle task to sleep: scheduling must fail
    // recoverably rather than pick anything.
    main_handle.put_sleep(&mut m);
    let idle = {
        let s = try_switch_context(&mut m, &mut ticks).expect("idle should be runnable");
        assert_eq!(s.next_name, "idle");
        current_task(&m)
    };
    idle.put_sleep(&mut m);
    match try_switch_context(&mut m, &mut ticks) {
        Err(Error::Whatever(msg)) => assert_eq!(msg, "Nothing to run"),
        Ok(_) => panic!("nothing should be runnable"),
    }
}
