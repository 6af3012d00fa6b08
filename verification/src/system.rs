//! The whole system: scheduler, timer adapter, output line and model time,
//! composed into one state machine.
//!
//! Each executable step is one arc of the control flow: a hardware
//! compare-match, one interrupt-bridge action, one dispatch pass, or one
//! piece of the foreground task's body. The well-formedness predicate `wf`
//! is the system invariant; every step requires and re-establishes it.
//!
//! Interrupt semantics are modelled by the precondition
//! `!irq_pending` on every step that runs in task context (dispatch and the
//! task body): while the peripheral's interrupt flag is raised the hardware
//! vectors into the handler again before any task code runs, so task-context
//! code only ever executes with the line deasserted. A handler that returns
//! without acknowledging therefore re-enters at once — an interrupt storm —
//! which the acknowledge step's contract precludes.

use vstd::prelude::*;

use crate::adapter::Fault;
use crate::adapter::TimerAdapter;
use crate::sched::Decision;
use crate::sched::Scheduler;
use crate::sched::TaskState;

verus! {

/// What the foreground task's suspension point reported.
#[derive(Clone, Copy, Debug, PartialEq, Eq, Structural)]
pub enum WaitPoll {
    /// The outstanding wait had already completed: the request is observed,
    /// cleared, and the task goes on to its effect without yielding.
    Complete,
    /// Still waiting: the task is registered as the pending waiter and
    /// yields the core back to the scheduler.
    Pending,
}

/// The complete system state. All instants are milliseconds since power-on.
#[derive(Clone, Copy, Debug, PartialEq, Eq, Structural)]
pub struct System {
    /// Task table and dispatch flag.
    pub sched: Scheduler,
    /// Hardware timer channel and the single timer-request slot.
    pub adapter: TimerAdapter,
    /// Level of the binary output line, owned exclusively by the foreground
    /// task and toggled once per completed cycle.
    pub output_high: bool,
    /// Completed cycles: how often the output line has been toggled.
    pub toggle_count: u64,
    /// How often the timer interrupt has fired.
    pub fired_count: u64,
    /// Model time: the current instant.
    pub now_ms: u64,
    /// The configured period of the foreground task's wait, in milliseconds.
    pub period_ms: u32,
    /// The foreground task has observed a completion and still owes the
    /// output toggle for that cycle: the continuation point after resumption.
    pub effect_due: bool,
}

impl System {
    /// The system invariant.
    ///
    /// Among its clauses: the timer-request slot is a single slot, so at most
    /// one request is ever outstanding; a suspended task always has that
    /// request armed; a toggle is only ever owed for an interrupt that has
    /// fired (`toggle_count < fired_count` whenever a completion or an owed
    /// effect is in flight), so the output can never run ahead of the timer.
    pub open spec fn wf(self) -> bool {
        &&& self.adapter.inv()
        &&& self.period_ms > 0
        &&& self.adapter.armed ==> self.adapter.duration_ms == self.period_ms
        &&& self.adapter.armed ==> self.now_ms <= self.adapter.deadline_ms
        &&& self.sched.foreground == TaskState::SuspendedOnTimer ==> self.adapter.armed
        &&& self.sched.foreground == TaskState::SuspendedOnTimer ==> !self.effect_due
        &&& self.effect_due ==> !self.adapter.armed
        &&& self.toggle_count <= self.fired_count
        &&& self.adapter.irq_pending ==> self.toggle_count < self.fired_count
        &&& self.adapter.completed ==> self.toggle_count < self.fired_count
        &&& self.effect_due ==> self.toggle_count < self.fired_count
    }

    /// The quiescent point of every cycle: the foreground task is suspended
    /// on an armed wait, no flag is raised, no effect is owed, and the system
    /// idles until the compare-match at `deadline_ms`.
    pub open spec fn waiting(self) -> bool {
        &&& self.sched.foreground == TaskState::SuspendedOnTimer
        &&& self.adapter.armed
        &&& !self.adapter.irq_pending
        &&& !self.adapter.completed
        &&& !self.effect_due
    }

    /// Power-on state. The startup collaborator (board and clock setup, out
    /// of scope here) supplies a configured timer channel and the output
    /// line at its initial level; the scheduler spawns the foreground task
    /// once, `Ready`, with the requested period.
    pub fn power_on(period_ms: u32, output_high: bool) -> (s: System)
        requires
            period_ms > 0,
        ensures
            s.wf(),
            s.sched.foreground == TaskState::Ready,
            !s.sched.pass_requested,
            !s.adapter.armed,
            !s.adapter.irq_pending,
            !s.adapter.completed,
            !s.effect_due,
            s.output_high == output_high,
            s.toggle_count == 0,
            s.fired_count == 0,
            s.now_ms == 0,
            s.period_ms == period_ms,
    {
        System {
            sched: Scheduler::spawn_foreground(),
            adapter: TimerAdapter::idle_channel(),
            output_high,
            toggle_count: 0,
            fired_count: 0,
            now_ms: 0,
            period_ms,
            effect_due: false,
        }
    }

    /// Whether the peripheral's interrupt line is still asserted: if it is,
    /// the hardware re-enters the interrupt handler as soon as the handler
    /// returns, before any task code can run.
    pub fn irq_line_asserted(&self) -> (r: bool)
        ensures
            r == self.adapter.irq_pending,
    {
        self.adapter.irq_pending
    }

    /// One dispatch pass in task context. Runs the foreground task when it
    /// is `Ready`; when no task is `Ready` the decision is to enter the
    /// low-power wait state, from which only an interrupt resumes the core.
    pub fn dispatch(&mut self) -> (d: Decision)
        requires
            old(self).wf(),
            !old(self).adapter.irq_pending,
        ensures
            final(self).wf(),
            (d == Decision::RunForeground) <==> old(self).sched.foreground == TaskState::Ready,
            (d == Decision::IdleWaitForInterrupt) <==> old(self).sched.foreground != TaskState::Ready,
            old(self).sched.foreground == TaskState::Ready ==> final(self).sched.foreground
                == TaskState::Running,
            old(self).sched.foreground != TaskState::Ready ==> final(self).sched.foreground
                == old(self).sched.foreground,
            !final(self).sched.pass_requested,
            *final(self) == (System {
                sched: final(self).sched,
                ..*old(self)
            }),
    {
        self.sched.dispatch()
    }

    /// The hardware compare-match at the armed deadline: time reaches the
    /// deadline and the peripheral raises its interrupt flag. This is the
    /// only step that raises the flag and the only one that fires the timer.
    pub fn hardware_fire(&mut self)
        requires
            old(self).wf(),
            old(self).adapter.armed,
            !old(self).adapter.irq_pending,
            !old(self).adapter.completed,
            old(self).fired_count < u64::MAX,
        ensures
            final(self).wf(),
            *final(self) == (System {
                adapter: TimerAdapter { irq_pending: true, ..old(self).adapter },
                now_ms: old(self).adapter.deadline_ms,
                fired_count: (old(self).fired_count + 1) as u64,
                ..*old(self)
            }),
    {
        self.now_ms = self.adapter.deadline_ms;
        self.fired_count = self.fired_count + 1;
        self.adapter.fire();
    }

    /// Interrupt bridge, step one: acknowledge the peripheral, clearing its
    /// interrupt flag. Mandatory on every handler entry — while the flag
    /// stays raised the hardware re-enters the handler the moment it
    /// returns, an interrupt storm that starves all task code.
    pub fn acknowledge_interrupt(&mut self)
        requires
            old(self).wf(),
            old(self).adapter.irq_pending,
        ensures
            final(self).wf(),
            *final(self) == (System {
                adapter: TimerAdapter { irq_pending: false, ..old(self).adapter },
                ..*old(self)
            }),
    {
        self.adapter.acknowledge();
    }

    /// Interrupt bridge, step two: mark the outstanding timer request
    /// completed for the suspended waiter to observe.
    ///
    /// `toggle_count < fired_count` holds on every handler entry (the flag
    /// was raised by a fire whose toggle is still owed) and carries the
    /// output-never-runs-ahead invariant through this step.
    pub fn mark_request_completed(&mut self)
        requires
            old(self).wf(),
            old(self).adapter.armed,
            old(self).toggle_count < old(self).fired_count,
        ensures
            final(self).wf(),
            *final(self) == (System {
                adapter: TimerAdapter { completed: true, ..old(self).adapter },
                ..*old(self)
            }),
    {
        self.adapter.mark_completed();
    }

    /// Interrupt bridge, step three: move the suspended waiter back to
    /// `Ready` so the next dispatch pass runs it.
    pub fn ready_waiting_task(&mut self)
        requires
            old(self).wf(),
            old(self).sched.foreground == TaskState::SuspendedOnTimer,
        ensures
            final(self).wf(),
            *final(self) == (System {
                sched: Scheduler { foreground: TaskState::Ready, ..old(self).sched },
                ..*old(self)
            }),
    {
        self.sched.ready_foreground();
    }

    /// Interrupt bridge, step four: request a dispatch pass.
    pub fn request_scheduler_pass(&mut self)
        requires
            old(self).wf(),
        ensures
            final(self).wf(),
            *final(self) == (System {
                sched: Scheduler { pass_requested: true, ..old(self).sched },
                ..*old(self)
            }),
    {
        self.sched.request_pass();
    }

    /// The whole interrupt handler, run at interrupt priority on a
    /// compare-match: acknowledge, mark completed, ready the waiter, request
    /// a pass. Short, non-blocking, and it never touches the output line.
    ///
    /// Its contract is the storm preclusion: on return the interrupt flag is
    /// clear (`!irq_pending`), so the handler does not re-enter and task
    /// code runs next.
    pub fn handle_interrupt(&mut self)
        requires
            old(self).wf(),
            old(self).adapter.irq_pending,
            old(self).sched.foreground == TaskState::SuspendedOnTimer,
        ensures
            final(self).wf(),
            *final(self) == (System {
                sched: Scheduler { foreground: TaskState::Ready, pass_requested: true },
                adapter: TimerAdapter {
                    irq_pending: false,
                    completed: true,
                    ..old(self).adapter
                },
                ..*old(self)
            }),
    {
        self.acknowledge_interrupt();
        self.mark_request_completed();
        self.ready_waiting_task();
        self.request_scheduler_pass();
    }

    /// The foreground task requests its timed wait: arm the channel for one
    /// period from now.
    ///
    /// A second request while one is outstanding is the fatal `DoubleArm`
    /// fault: the state is left exactly as it was — nothing is queued,
    /// coalesced or dropped — and the caller halts the system.
    pub fn request_wait(&mut self) -> (r: Result<(), Fault>)
        requires
            old(self).wf(),
            old(self).sched.foreground == TaskState::Running,
            !old(self).effect_due,
            !old(self).adapter.irq_pending,
            old(self).now_ms + old(self).period_ms <= u64::MAX,
        ensures
            final(self).wf(),
            old(self).adapter.armed ==> r == Err::<(), Fault>(Fault::DoubleArm)
                && *final(self) == *old(self),
            !old(self).adapter.armed ==> {
                &&& r == Ok::<(), Fault>(())
                &&& *final(self) == (System {
                    adapter: TimerAdapter {
                        armed: true,
                        duration_ms: old(self).period_ms,
                        deadline_ms: (old(self).now_ms + old(self).period_ms as u64) as u64,
                        irq_pending: false,
                        completed: false,
                    },
                    ..*old(self)
                })
            },
    {
        let now_ms = self.now_ms;
        let period_ms = self.period_ms;
        self.adapter.begin_wait(now_ms, period_ms)
    }

    /// The foreground task's single suspension point. If the outstanding
    /// wait has already completed, the completion is observed and cleared
    /// (the request's lifetime ends) and the task carries on to its owed
    /// effect without yielding. Otherwise the task is registered as the
    /// pending waiter and yields the core back to the scheduler.
    pub fn poll_or_suspend(&mut self) -> (r: WaitPoll)
        requires
            old(self).wf(),
            old(self).sched.foreground == TaskState::Running,
            old(self).adapter.armed,
            !old(self).adapter.irq_pending,
        ensures
            final(self).wf(),
            old(self).adapter.completed ==> r == WaitPoll::Complete
                && *final(self) == (System {
                    adapter: TimerAdapter {
                        armed: false,
                        completed: false,
                        ..old(self).adapter
                    },
                    effect_due: true,
                    ..*old(self)
                }),
            !old(self).adapter.completed ==> r == WaitPoll::Pending
                && *final(self) == (System {
                    sched: Scheduler {
                        foreground: TaskState::SuspendedOnTimer,
                        ..old(self).sched
                    },
                    ..*old(self)
                }),
    {
        if self.adapter.completed {
            self.adapter.take_completion();
            self.effect_due = true;
            WaitPoll::Complete
        } else {
            self.sched.suspend_foreground();
            WaitPoll::Pending
        }
    }

    /// The foreground task's effect: toggle the output line, once per
    /// completed cycle, strictly after the cycle's wait completed and
    /// strictly before the next wait is armed.
    pub fn toggle_output(&mut self)
        requires
            old(self).wf(),
            old(self).sched.foreground == TaskState::Running,
            old(self).effect_due,
            !old(self).adapter.irq_pending,
        ensures
            final(self).wf(),
            *final(self) == (System {
                output_high: !old(self).output_high,
                toggle_count: (old(self).toggle_count + 1) as u64,
                effect_due: false,
                ..*old(self)
            }),
    {
        self.output_high = !self.output_high;
        self.toggle_count = self.toggle_count + 1;
        self.effect_due = false;
    }

    /// Where one full cycle from a `waiting` state lands: the mathematical
    /// one-cycle map. The interrupt fires at the armed deadline, the handler
    /// runs, the task toggles the output and arms the next wait one period
    /// after the fire, and the system is `waiting` again.
    pub open spec fn after_cycle(self) -> System {
        System {
            sched: Scheduler { foreground: TaskState::SuspendedOnTimer, pass_requested: false },
            adapter: TimerAdapter {
                armed: true,
                duration_ms: self.period_ms,
                deadline_ms: (self.adapter.deadline_ms + self.period_ms as u64) as u64,
                irq_pending: false,
                completed: false,
            },
            output_high: !self.output_high,
            toggle_count: (self.toggle_count + 1) as u64,
            fired_count: (self.fired_count + 1) as u64,
            now_ms: self.adapter.deadline_ms,
            period_ms: self.period_ms,
            effect_due: false,
        }
    }

    /// Startup arc, run once after `power_on`: the first dispatch pass runs
    /// the foreground task, which arms the first wait one period from now
    /// and suspends; the following pass finds no task `Ready` and the core
    /// enters the low-power wait state.
    pub fn boot(&mut self)
        requires
            old(self).wf(),
            old(self).sched.foreground == TaskState::Ready,
            !old(self).adapter.armed,
            !old(self).adapter.irq_pending,
            !old(self).effect_due,
            old(self).now_ms + old(self).period_ms <= u64::MAX,
        ensures
            final(self).wf(),
            *final(self) == (System {
                sched: Scheduler { foreground: TaskState::SuspendedOnTimer, pass_requested: false },
                adapter: TimerAdapter {
                    armed: true,
                    duration_ms: old(self).period_ms,
                    deadline_ms: (old(self).now_ms + old(self).period_ms as u64) as u64,
                    irq_pending: false,
                    completed: false,
                },
                ..*old(self)
            }),
            final(self).waiting(),
    {
        let _d = self.dispatch();
        let _armed = self.request_wait();
        let _p = self.poll_or_suspend();
        let _d2 = self.dispatch();
    }

    /// One full period-long cycle, from the quiescent `waiting` state back
    /// to it: compare-match at the deadline, interrupt handler, dispatch,
    /// completion observed, output toggled, next wait armed, task suspended,
    /// dispatch falls through to idle.
    ///
    /// The contract is the per-cycle shape of the system's guarantees: the
    /// toggle count and the fired count each grow by exactly one, the output
    /// inverts, and the next deadline sits exactly one period after the
    /// fire that ended this cycle.
    pub fn run_cycle(&mut self)
        requires
            old(self).wf(),
            old(self).waiting(),
            old(self).adapter.deadline_ms + old(self).period_ms <= u64::MAX,
            old(self).fired_count < u64::MAX,
        ensures
            final(self).wf(),
            final(self).waiting(),
            *final(self) == old(self).after_cycle(),
            final(self).toggle_count == old(self).toggle_count + 1,
            final(self).fired_count == old(self).fired_count + 1,
            final(self).output_high == !old(self).output_high,
            final(self).now_ms == old(self).adapter.deadline_ms,
            final(self).adapter.deadline_ms == old(self).adapter.deadline_ms + old(self).period_ms,
            final(self).period_ms == old(self).period_ms,
    {
        self.hardware_fire();
        self.handle_interrupt();
        let _d = self.dispatch();
        let _p = self.poll_or_suspend();
        self.toggle_output();
        let _armed = self.request_wait();
        let _p2 = self.poll_or_suspend();
        let _d2 = self.dispatch();
    }
}

} // verus!
