use blink_sched::adapter::Fault;
use blink_sched::adapter::TimerAdapter;
use blink_sched::sched::Decision;
use blink_sched::sched::Scheduler;
use blink_sched::sched::TaskState;
use blink_sched::system::System;
use blink_sched::system::WaitPoll;

#[test]
fn adapter_arms_and_refuses_double_arm() {
    let mut a = TimerAdapter::idle_channel();
    assert!(!a.armed);
    assert_eq!(a.begin_wait(1000, 500), Ok(()));
    assert!(a.armed);
    assert_eq!(a.duration_ms, 500);
    assert_eq!(a.deadline_ms, 1500);
    let before = a;
    assert_eq!(a.begin_wait(1200, 500), Err(Fault::DoubleArm));
    assert_eq!(a, before);
}

#[test]
fn adapter_flags_follow_fire_ack_complete() {
    let mut a = TimerAdapter::idle_channel();
    assert_eq!(a.begin_wait(0, 500), Ok(()));
    a.fire();
    assert!(a.irq_pending);
    a.acknowledge();
    assert!(!a.irq_pending);
    a.mark_completed();
    assert!(a.completed);
    a.take_completion();
    assert!(!a.completed);
    assert!(!a.armed);
    // The slot is free again: the next wait arms cleanly.
    assert_eq!(a.begin_wait(500, 500), Ok(()));
    assert_eq!(a.deadline_ms, 1000);
}

#[test]
fn scheduler_runs_ready_foreground_first() {
    let mut s = Scheduler::spawn_foreground();
    assert_eq!(s.foreground, TaskState::Ready);
    assert_eq!(s.dispatch(), Decision::RunForeground);
    assert_eq!(s.foreground, TaskState::Running);
    s.suspend_foreground();
    assert_eq!(s.foreground, TaskState::SuspendedOnTimer);
    assert_eq!(s.dispatch(), Decision::IdleWaitForInterrupt);
    s.ready_foreground();
    assert_eq!(s.foreground, TaskState::Ready);
}

#[test]
fn bridge_pass_request_is_consumed_by_dispatch() {
    let mut s = Scheduler::spawn_foreground();
    s.request_pass();
    assert!(s.pass_requested);
    let _ = s.dispatch();
    assert!(!s.pass_requested);
}

#[test]
fn poll_suspends_until_completion_observed() {
    let mut s = System::power_on(500, false);
    let _ = s.dispatch();
    assert_eq!(s.request_wait(), Ok(()));
    // Not yet completed: the task registers as waiter and yields.
    assert_eq!(s.poll_or_suspend(), WaitPoll::Pending);
    assert_eq!(s.sched.foreground, TaskState::SuspendedOnTimer);

    s.hardware_fire();
    s.handle_interrupt();
    let _ = s.dispatch();
    // Completed: observed and cleared, the request's lifetime ends, and the
    // task owes the toggle.
    assert_eq!(s.poll_or_suspend(), WaitPoll::Complete);
    assert!(!s.adapter.armed);
    assert!(!s.adapter.completed);
    assert!(s.effect_due);
}

#[test]
fn toggle_happens_between_completion_and_next_arm() {
    let mut s = System::power_on(500, false);
    s.boot();
    s.hardware_fire();
    s.handle_interrupt();
    let _ = s.dispatch();
    assert_eq!(s.poll_or_suspend(), WaitPoll::Complete);
    assert_eq!(s.toggle_count, 0);
    s.toggle_output();
    assert_eq!(s.toggle_count, 1);
    assert!(s.output_high);
    assert!(!s.effect_due);
    // Only now is the next wait armed, one period after the fire.
    assert_eq!(s.request_wait(), Ok(()));
    assert_eq!(s.adapter.deadline_ms, 1000);
}
