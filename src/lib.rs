//! Supervision of named, long-running processes ("jobs"): restart policies,
//! backoff between restarts, output hooks that trigger restart or stop
//! decisions, job selection filters, and the per-job decision state machine.
//!
//! Everything here is pure decision logic over plain values; spawning
//! processes, reading their output, sleeping and persisting job definitions
//! are left to the caller, which feeds the observed events in and carries
//! out the returned actions.

pub mod event;
pub mod filter;
pub mod job;
pub mod orchestrator;
pub mod supervisor;
pub mod template;
