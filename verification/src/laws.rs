//! System-wide guarantees, proved once over arbitrarily many cycles.
//!
//! `run_cycles` iterates the one-cycle map `System::after_cycle`, which is
//! exactly where `System::run_cycle` lands (by its contract). The lemmas
//! here lift the per-cycle contracts to every cycle count.

use vstd::prelude::*;

use crate::system::System;

verus! {

/// The system after `n` full cycles from a `waiting` state: `n` iterations
/// of the one-cycle map that `System::run_cycle` realises.
pub open spec fn run_cycles(s: System, n: nat) -> System
    decreases n,
{
    if n == 0 {
        s
    } else {
        run_cycles(s, (n - 1) as nat).after_cycle()
    }
}

/// One cycle from a `waiting` state, with the deadline and the fire counter
/// still in range, lands `waiting` again, with the toggle and fire counts
/// one higher, the output inverted, the fire instant at the old deadline and
/// the next deadline one period later.
pub proof fn lemma_after_cycle(s: System)
    requires
        s.wf(),
        s.waiting(),
        s.adapter.deadline_ms + s.period_ms <= u64::MAX,
        s.fired_count < u64::MAX,
    ensures
        s.after_cycle().wf(),
        s.after_cycle().waiting(),
        s.after_cycle().toggle_count == s.toggle_count + 1,
        s.after_cycle().fired_count == s.fired_count + 1,
        s.after_cycle().output_high == !s.output_high,
        s.after_cycle().now_ms == s.adapter.deadline_ms,
        s.after_cycle().adapter.deadline_ms == s.adapter.deadline_ms + s.period_ms,
        s.after_cycle().period_ms == s.period_ms,
{
}

/// Alternation and cadence over every cycle count.
///
/// For all `n` completed cycles from a `waiting` state: the toggle count has
/// grown by exactly `n` (no missed or duplicate toggles), the output line is
/// its starting level for even `n` and the inverted level for odd `n` (so
/// two consecutive completions always invert it from its prior state and the
/// full on/off pattern repeats with period `2 * period_ms`), the timer has
/// fired exactly `n` times, and the armed deadline has advanced by exactly
/// `n` periods.
pub proof fn lemma_cycles_alternate(s: System, n: nat)
    requires
        s.wf(),
        s.waiting(),
        s.adapter.deadline_ms + n * s.period_ms <= u64::MAX,
        s.fired_count + n <= u64::MAX,
    ensures
        run_cycles(s, n).wf(),
        run_cycles(s, n).waiting(),
        run_cycles(s, n).toggle_count == s.toggle_count + n,
        run_cycles(s, n).fired_count == s.fired_count + n,
        run_cycles(s, n).output_high == (if n % 2 == 0 {
            s.output_high
        } else {
            !s.output_high
        }),
        run_cycles(s, n).adapter.deadline_ms == s.adapter.deadline_ms + n * s.period_ms,
        run_cycles(s, n).period_ms == s.period_ms,
        n >= 1 ==> run_cycles(s, n).now_ms == s.adapter.deadline_ms + (n - 1) * s.period_ms,
    decreases n,
{
    if n == 0 {
        assert(n * s.period_ms == 0) by (nonlinear_arith)
            requires n == 0,
        ;
        assert(run_cycles(s, n).adapter.deadline_ms == s.adapter.deadline_ms + n * s.period_ms);
    } else {
        let m = (n - 1) as nat;
        assert(m * s.period_ms <= n * s.period_ms && m * s.period_ms + s.period_ms == n
            * s.period_ms) by (nonlinear_arith)
            requires m + 1 == n,
        ;
        lemma_cycles_alternate(s, m);
        lemma_after_cycle(run_cycles(s, m));
    }
}

/// The interval between consecutive timer fires is exactly the configured
/// period, for every cycle: the instant at which the interrupt for cycle
/// `n + 1` fires is one period after the instant at which the interrupt for
/// cycle `n` fired.
pub proof fn lemma_fire_interval(s: System, n: nat)
    requires
        s.wf(),
        s.waiting(),
        n >= 1,
        s.adapter.deadline_ms + (n + 1) * s.period_ms <= u64::MAX,
        s.fired_count + n + 1 <= u64::MAX,
    ensures
        run_cycles(s, n + 1).now_ms == run_cycles(s, n).now_ms + s.period_ms,
{
    assert(n * s.period_ms <= (n + 1) * s.period_ms && n * s.period_ms + s.period_ms == (n + 1)
        * s.period_ms) by (nonlinear_arith);
    lemma_cycles_alternate(s, n);
    lemma_cycles_alternate(s, n + 1);
}

/// No toggle without an intervening interrupt: once every fired interrupt's
/// toggle has been performed (`toggle_count == fired_count`), no completion
/// is observable and no effect is owed, so nothing can raise the toggle
/// count until the hardware fires again.
pub proof fn lemma_toggle_needs_fire(s: System)
    requires
        s.wf(),
        s.toggle_count == s.fired_count,
    ensures
        !s.adapter.completed,
        !s.effect_due,
        !s.adapter.irq_pending,
{
}

} // verus!
