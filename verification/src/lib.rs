//! Execution-and-feedback core of a coverage-guided fuzzing engine.
//!
//! The crate runs one candidate input through an instrumented target,
//! observes the outcome, classifies abnormal terminations, and decides
//! whether the execution revealed new, fuzzing-worthy behavior.

pub mod corpus;
pub mod emu;
pub mod errors;
pub mod executor;
pub mod exit_kind;
pub mod feedbacks;
pub mod harness;
pub mod helper;
pub mod hooks;
pub mod inprocess;
pub mod naming;
pub mod observers;
pub mod options;
pub mod shmem;
pub mod signals;
