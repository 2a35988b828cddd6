use vstd::prelude::*;
use crate::exit_kind::ExitKind;
use crate::observers::UserFeatureObserver;

verus! {

/// The callable entry point supplied by the embedding fuzzer: run one
/// input, write measurements into the observer record, and report the
/// raw outcome. A run interrupted by a fatal signal or the timeout alarm
/// reports the outcome the recovery path classified instead of returning
/// normally; either way the observer record stays well formed.
pub trait Harness: Sized {
    fn run(&mut self, input: &Vec<u8>, observers: &mut UserFeatureObserver) -> (exit_kind:
        ExitKind)
        requires
            old(observers).wf(),
        ensures
            final(observers).wf(),
    ;
}

} // verus!
