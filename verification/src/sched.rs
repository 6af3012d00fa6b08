//! Cooperative task scheduler and idle supervisor: the task table and the
//! dispatch rule.
//!
//! The task set is static: one foreground periodic task and the always-ready
//! background idle loop, two fixed priority levels. Dispatch therefore needs
//! no general priority queue: run the foreground task when it is `Ready`,
//! otherwise fall through to the idle supervisor, which executes the
//! wait-for-interrupt instruction.

use vstd::prelude::*;

verus! {

/// State of the one foreground task. It is statically allocated, never
/// destroyed, and cycles `Ready -> Running -> SuspendedOnTimer -> Ready`
/// forever; no terminal state exists.
#[derive(Clone, Copy, Debug, PartialEq, Eq, Structural)]
pub enum TaskState {
    /// Eligible for dispatch.
    Ready,
    /// Holds the core right now.
    Running,
    /// Yielded, waiting for the outstanding timer request to complete.
    SuspendedOnTimer,
}

/// What the dispatcher decided for this pass: who gets the core.
#[derive(Clone, Copy, Debug, PartialEq, Eq, Structural)]
pub enum Decision {
    /// The foreground task is `Ready`: enter its body.
    RunForeground,
    /// No task is `Ready`: the idle supervisor halts the core with a
    /// wait-for-interrupt instruction until the next interrupt.
    IdleWaitForInterrupt,
}

/// The task table: the foreground task's state, and the flag with which the
/// interrupt bridge requests a fresh dispatch pass.
#[derive(Clone, Copy, Debug, PartialEq, Eq, Structural)]
pub struct Scheduler {
    /// The single foreground periodic task.
    pub foreground: TaskState,
    /// Set by the interrupt bridge, consumed by the next dispatch pass.
    pub pass_requested: bool,
}

impl Scheduler {
    /// The table at startup: the foreground task spawned once, `Ready`,
    /// before any dispatch pass has run.
    pub fn spawn_foreground() -> (s: Scheduler)
        ensures
            s.foreground == TaskState::Ready,
            !s.pass_requested,
    {
        Scheduler { foreground: TaskState::Ready, pass_requested: false }
    }

    /// One dispatch pass: always run the highest-priority `Ready` task.
    ///
    /// With the static two-level task set that means: the foreground task if
    /// it is `Ready`, otherwise the idle supervisor. The decision says which;
    /// the core enters the low-power wait state exactly when no task is
    /// `Ready`.
    pub fn dispatch(&mut self) -> (d: Decision)
        ensures
            (d == Decision::RunForeground) <==> old(self).foreground == TaskState::Ready,
            (d == Decision::IdleWaitForInterrupt) <==> old(self).foreground != TaskState::Ready,
            old(self).foreground == TaskState::Ready ==> final(self).foreground == TaskState::Running,
            old(self).foreground != TaskState::Ready ==> final(self).foreground == old(self).foreground,
            !final(self).pass_requested,
    {
        self.pass_requested = false;
        if self.foreground == TaskState::Ready {
            self.foreground = TaskState::Running;
            Decision::RunForeground
        } else {
            Decision::IdleWaitForInterrupt
        }
    }

    /// The running foreground task yields at its single suspension point.
    pub fn suspend_foreground(&mut self)
        requires
            old(self).foreground == TaskState::Running,
        ensures
            *final(self) == (Scheduler { foreground: TaskState::SuspendedOnTimer, ..*old(self) }),
    {
        self.foreground = TaskState::SuspendedOnTimer;
    }

    /// The interrupt bridge moves the suspended waiter back to `Ready`.
    pub fn ready_foreground(&mut self)
        requires
            old(self).foreground == TaskState::SuspendedOnTimer,
        ensures
            *final(self) == (Scheduler { foreground: TaskState::Ready, ..*old(self) }),
    {
        self.foreground = TaskState::Ready;
    }

    /// The interrupt bridge asks for a dispatch pass once its short handler
    /// is done.
    pub fn request_pass(&mut self)
        ensures
            *final(self) == (Scheduler { pass_requested: true, ..*old(self) }),
    {
        self.pass_requested = true;
    }
}

} // verus!
