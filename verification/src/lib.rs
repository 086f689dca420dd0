//! A discrete-time simulator for a preemptive priority-based real-time
//! scheduler.
//!
//! A fixed set of periodic processes (interrupt handlers and tasks) is
//! stepped tick by tick.  Each tick the tracer reconciles the active slot,
//! decides whether to dispatch or preempt, advances every process's local
//! state machine, and accounts one busy or idle tick.  The run produces a
//! stream of state-transition events and per-process peak CPU-occupancy
//! figures.
//!
//! Every step of the engine is proved equal to a purely mathematical model
//! of the same tick loop, so the whole simulation is a verified function of
//! its configuration.

pub mod process;
pub mod process_state;
pub mod process_time;
pub mod process_tracer;
pub mod profile_if;
