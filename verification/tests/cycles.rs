use blink_sched::sched::Decision;
use blink_sched::sched::TaskState;
use blink_sched::system::System;

#[test]
fn power_on_initial_state() {
    let s = System::power_on(500, false);
    assert_eq!(s.sched.foreground, TaskState::Ready);
    assert!(!s.sched.pass_requested);
    assert!(!s.adapter.armed);
    assert!(!s.adapter.irq_pending);
    assert!(!s.adapter.completed);
    assert!(!s.effect_due);
    assert!(!s.output_high);
    assert_eq!(s.toggle_count, 0);
    assert_eq!(s.fired_count, 0);
    assert_eq!(s.now_ms, 0);
    assert_eq!(s.period_ms, 500);
}

#[test]
fn boot_arms_first_wait() {
    let mut s = System::power_on(500, false);
    s.boot();
    assert_eq!(s.sched.foreground, TaskState::SuspendedOnTimer);
    assert!(s.adapter.armed);
    assert_eq!(s.adapter.duration_ms, 500);
    assert_eq!(s.adapter.deadline_ms, 500);
    assert!(!s.adapter.irq_pending);
    assert!(!s.adapter.completed);
    assert!(!s.effect_due);
    assert!(!s.output_high);
    assert_eq!(s.toggle_count, 0);
}

#[test]
fn blink_scenario_alternates() {
    // Power on, first wait armed for 500ms, 500ms elapses, output inverts
    // low -> high; second wait armed, 500ms elapses, output inverts again
    // high -> low: a full on/off cycle every 1000ms.
    let mut s = System::power_on(500, false);
    s.boot();
    assert_eq!(s.adapter.deadline_ms, 500);

    s.run_cycle();
    assert!(s.output_high);
    assert_eq!(s.toggle_count, 1);
    assert_eq!(s.now_ms, 500);
    assert_eq!(s.adapter.deadline_ms, 1000);

    s.run_cycle();
    assert!(!s.output_high);
    assert_eq!(s.toggle_count, 2);
    assert_eq!(s.now_ms, 1000);
    assert_eq!(s.adapter.deadline_ms, 1500);

    // The pattern repeats: two more cycles return the line to low again.
    s.run_cycle();
    assert!(s.output_high);
    s.run_cycle();
    assert!(!s.output_high);
    assert_eq!(s.now_ms, 2000);
}

#[test]
fn toggle_count_equals_completed_cycles() {
    let mut s = System::power_on(500, false);
    s.boot();
    let mut n: u64 = 0;
    while n < 7 {
        s.run_cycle();
        n += 1;
        assert_eq!(s.toggle_count, n);
        assert_eq!(s.fired_count, n);
        assert_eq!(s.output_high, n % 2 == 1);
    }
}

#[test]
fn fire_interval_equals_period() {
    let mut s = System::power_on(500, false);
    s.boot();
    let mut previous_fire: Option<u64> = None;
    for _ in 0..6 {
        s.run_cycle();
        if let Some(p) = previous_fire {
            assert_eq!(s.now_ms - p, 500);
        }
        previous_fire = Some(s.now_ms);
    }
}

#[test]
fn other_period_keeps_cadence() {
    let mut s = System::power_on(250, true);
    s.boot();
    assert_eq!(s.adapter.deadline_ms, 250);
    s.run_cycle();
    assert!(!s.output_high);
    assert_eq!(s.now_ms, 250);
    s.run_cycle();
    assert!(s.output_high);
    assert_eq!(s.now_ms, 500);
}

#[test]
fn dispatch_idles_exactly_when_no_task_ready() {
    let mut s = System::power_on(500, false);
    let d = s.dispatch();
    assert_eq!(d, Decision::RunForeground);
    assert_eq!(s.sched.foreground, TaskState::Running);

    let mut t = System::power_on(500, false);
    t.boot();
    // Suspended on the timer: nothing is ready, so the core must enter the
    // low-power wait state.
    let d2 = t.dispatch();
    assert_eq!(d2, Decision::IdleWaitForInterrupt);
    assert_eq!(t.sched.foreground, TaskState::SuspendedOnTimer);
}

#[test]
fn no_toggle_without_intervening_interrupt() {
    let mut s = System::power_on(500, false);
    s.boot();
    // However many dispatch passes run, the toggle count stays put until an
    // interrupt fires.
    for _ in 0..5 {
        let d = s.dispatch();
        assert_eq!(d, Decision::IdleWaitForInterrupt);
        assert_eq!(s.toggle_count, 0);
        assert!(!s.output_high);
    }
    s.hardware_fire();
    s.handle_interrupt();
    let d = s.dispatch();
    assert_eq!(d, Decision::RunForeground);
    let p = s.poll_or_suspend();
    assert_eq!(p, blink_sched::system::WaitPoll::Complete);
    s.toggle_output();
    assert_eq!(s.toggle_count, 1);
    assert!(s.output_high);
}
