use vstd::prelude::*;

verus! {

/// Engine-level failures, kept apart from execution outcomes: an
/// execution outcome (`Crash`, `Timeout`, `Oom`) is data that flows
/// forward, while these abort or skip the run that raised them.
#[derive(Clone, Copy, Debug, PartialEq, Eq, Structural)]
pub enum EngineError {
    /// Fork isolation was requested although a registered helper declares
    /// side-effecting hooks; rejected at construction time.
    ForkWithSideEffectingHooks,
    /// The shared-memory region cannot hold one observer record.
    SharedMemorySetup,
    /// A run was started while another execution was still in flight.
    ExecutionInFlight,
}

} // verus!
