//! Timer peripheral adapter: the model of the hardware counter/compare
//! channel and of the single outstanding timer request.
//!
//! The adapter owns a fixed-size slot for at most one wait: `armed` says
//! whether a request is outstanding, `deadline_ms` is the absolute instant at
//! which the armed compare-match fires, `irq_pending` is the peripheral's
//! interrupt flag (raised by the hardware on compare-match, cleared only by an
//! explicit acknowledge), and `completed` is the completion flag that the
//! interrupt bridge sets for the suspended waiter to observe.

use vstd::prelude::*;

verus! {

/// A fatal error of the scheduler core. Every variant is terminal: the
/// caller halts rather than retry, since a static single-task topology has
/// no recovery path short of a full reset.
#[derive(Clone, Copy, Debug, PartialEq, Eq, Structural)]
pub enum Fault {
    /// A wait was requested while one was already outstanding. With a single
    /// periodic requester this can never happen; its occurrence means a
    /// broken invariant, not a condition to queue or coalesce.
    DoubleArm,
}

/// The hardware counter/compare channel together with the one timer-request
/// slot. All instants are whole milliseconds since power-on; all durations
/// are whole milliseconds.
#[derive(Clone, Copy, Debug, PartialEq, Eq, Structural)]
pub struct TimerAdapter {
    /// A wait is outstanding: requested and its completion not yet observed.
    pub armed: bool,
    /// Duration of the outstanding wait, in milliseconds.
    pub duration_ms: u32,
    /// Absolute instant at which the outstanding wait's compare-match fires.
    pub deadline_ms: u64,
    /// The peripheral's interrupt flag: raised on compare-match, cleared only
    /// by the acknowledge step of the interrupt bridge.
    pub irq_pending: bool,
    /// Completion flag: set by the interrupt bridge once the compare-match
    /// has fired, cleared when the waiter observes it.
    pub completed: bool,
}

impl TimerAdapter {
    /// Internal consistency of the slot: the flags describe the outstanding
    /// request, so neither can be raised without one.
    pub open spec fn inv(self) -> bool {
        &&& self.irq_pending ==> self.armed
        &&& self.completed ==> self.armed
    }

    /// The adapter as the startup collaborator hands it over: configured,
    /// idle, nothing armed, no flag raised.
    pub fn idle_channel() -> (a: TimerAdapter)
        ensures
            a.inv(),
            !a.armed,
            !a.irq_pending,
            !a.completed,
    {
        TimerAdapter { armed: false, duration_ms: 0, deadline_ms: 0, irq_pending: false, completed: false }
    }

    /// Arm the compare channel to fire `duration_ms` after `now_ms`.
    ///
    /// Re-arming while a wait is outstanding is a fatal programming error:
    /// the request is refused, the slot is left untouched (no silent
    /// queueing, dropping or corruption), and the caller halts.
    pub fn begin_wait(&mut self, now_ms: u64, duration_ms: u32) -> (r: Result<(), Fault>)
        requires
            old(self).inv(),
            now_ms + duration_ms <= u64::MAX,
        ensures
            final(self).inv(),
            old(self).armed ==> r == Err::<(), Fault>(Fault::DoubleArm) && *final(self) == *old(self),
            !old(self).armed ==> {
                &&& r == Ok::<(), Fault>(())
                &&& *final(self) == (TimerAdapter {
                    armed: true,
                    duration_ms,
                    deadline_ms: (now_ms + duration_ms as u64) as u64,
                    irq_pending: false,
                    completed: false,
                })
            },
    {
        if self.armed {
            Err(Fault::DoubleArm)
        } else {
            self.armed = true;
            self.duration_ms = duration_ms;
            self.deadline_ms = now_ms + duration_ms as u64;
            self.irq_pending = false;
            self.completed = false;
            Ok(())
        }
    }

    /// The hardware side of a compare-match: the counter reaches the
    /// programmed target and the peripheral raises its interrupt flag.
    /// One match fires per armed request.
    pub fn fire(&mut self)
        requires
            old(self).inv(),
            old(self).armed,
            !old(self).irq_pending,
            !old(self).completed,
        ensures
            final(self).inv(),
            *final(self) == (TimerAdapter { irq_pending: true, ..*old(self) }),
    {
        self.irq_pending = true;
    }

    /// Acknowledge the peripheral: clear the interrupt flag, the one write
    /// that stops the hardware from re-raising the same interrupt.
    pub fn acknowledge(&mut self)
        requires
            old(self).inv(),
            old(self).irq_pending,
        ensures
            final(self).inv(),
            *final(self) == (TimerAdapter { irq_pending: false, ..*old(self) }),
    {
        self.irq_pending = false;
    }

    /// Mark the outstanding request completed, for the suspended waiter to
    /// observe.
    pub fn mark_completed(&mut self)
        requires
            old(self).inv(),
            old(self).armed,
        ensures
            final(self).inv(),
            *final(self) == (TimerAdapter { completed: true, ..*old(self) }),
    {
        self.completed = true;
    }

    /// Observe and clear a completion: the request's lifetime ends here, and
    /// the slot is free for the next wait.
    pub fn take_completion(&mut self)
        requires
            old(self).inv(),
            old(self).completed,
            !old(self).irq_pending,
        ensures
            final(self).inv(),
            *final(self) == (TimerAdapter { armed: false, completed: false, ..*old(self) }),
    {
        self.armed = false;
        self.completed = false;
    }
}

} // verus!
