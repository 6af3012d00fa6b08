//! A single-core, interrupt-driven real-time task scheduler that multiplexes
//! one hardware timer peripheral between a periodic wait and a low-priority
//! idle loop.
//!
//! The crate models the whole system as an explicit state machine: the timer
//! peripheral adapter, the interrupt bridge, the cooperative scheduler and the
//! idle supervisor each contribute steps, and every step carries a contract
//! that pins down the next state. The hardware itself (registers, the
//! wait-for-interrupt instruction, the output line driver) lives outside the
//! crate; a host harness performs each decided action and feeds the resulting
//! event back in.

pub mod adapter;
pub mod sched;
pub mod laws;
pub mod system;
