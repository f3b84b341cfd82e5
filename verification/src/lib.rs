//! Bounded-concurrency orchestration of per-item downloads through an
//! external command-line tool, with every decision stated as a contract.
//!
//! The library decides; its caller acts. [`orchestrator::Orchestrator`] says
//! which item to admit, which to start and when to wait, keeps the count of
//! permits in [`gate::Gate`], and reduces the outcomes to one
//! [`aggregate::AggregateResult`]. The caller runs the processes and reports
//! back what each [`invoker::Invocation`] came to. [`laws`] states what holds
//! of every orchestration.

pub mod aggregate;
pub mod gate;
pub mod invoker;
pub mod item;
pub mod laws;
pub mod orchestrator;
pub mod outcome;
pub mod phase;
pub mod report;
pub mod steamcmd;
pub mod text;
pub mod utils;
