use vstd::prelude::*;

verus! {

/// Outcome tag produced exactly once per execution of the harness.
///
/// The post-execution helper hooks may override the raw value (for
/// example, promote `Crash` to `Oom` once backend introspection confirms
/// memory exhaustion); once consumed by the feedback engine it is final.
#[derive(Clone, Copy, Debug, PartialEq, Eq, Structural)]
pub enum ExitKind {
    Okay,
    Crash,
    Timeout,
    Oom,
}

} // verus!
