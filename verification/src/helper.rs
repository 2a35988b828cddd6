use vstd::prelude::*;
use crate::emu::Emulator;
use crate::exit_kind::ExitKind;
use crate::observers::UserFeatureObserver;

verus! {

/// One instrumentation helper, supplied by the embedding backend's
/// users. The engine drives the three lifecycle hooks; a helper that
/// mutates state outside the observer path must declare it, since such
/// effects would be discarded under fork isolation.
pub trait QemuHelper: Sized {
    /// Declared capability: whether the hooks may mutate state outside
    /// the observer path.
    spec fn declares_side_effects(&self) -> bool;

    /// The declared capability, as registration reads it.
    fn hooks_have_side_effects(&self) -> (r: bool)
        ensures
            r == self.declares_side_effects(),
    ;

    /// One-time instrumentation setup, run before the first input.
    fn first_exec(&mut self, emulator: &mut Emulator);

    /// Run before every execution; may install per-input traps.
    fn pre_exec(&mut self, emulator: &mut Emulator, input: &Vec<u8>);

    /// Run after every execution; may amend observer data and override
    /// the exit kind, and must leave the observer record well formed.
    fn post_exec(
        &mut self,
        emulator: &mut Emulator,
        input: &Vec<u8>,
        observers: &mut UserFeatureObserver,
        exit_kind: &mut ExitKind,
    )
        requires
            old(observers).wf(),
        ensures
            final(observers).wf(),
    ;
}

/// The ordered helper pipeline together with the helper set's declared
/// side-effect capability: the flag is fixed by the registrations and
/// only ever tightens from "no side effects" to "has side effects".
pub struct QemuHelpers<QT> {
    list: Vec<QT>,
    side_effects: bool,
}

impl<QT: QemuHelper> QemuHelpers<QT> {
    /// Whether any registered helper declared side-effecting hooks.
    pub closed spec fn spec_side_effects(&self) -> bool {
        self.side_effects
    }

    /// Number of registered helpers.
    pub closed spec fn count(&self) -> nat {
        self.list@.len()
    }

    /// Empty pipeline, declaring no side effects.
    pub fn new() -> (r: Self)
        ensures
            !r.spec_side_effects(),
            r.count() == 0,
    {
        QemuHelpers { list: Vec::new(), side_effects: false }
    }

    /// Append a helper; the pipeline's capability flag absorbs the
    /// helper's declaration.
    pub fn register(&mut self, helper: QT)
        ensures
            final(self).count() == old(self).count() + 1,
            final(self).spec_side_effects() == (old(self).spec_side_effects()
                || helper.declares_side_effects()),
    {
        let declares = helper.hooks_have_side_effects();
        self.side_effects = self.side_effects || declares;
        self.list.push(helper);
    }

    /// The helper set's declared capability flag.
    pub fn hooks_have_side_effects(&self) -> (r: bool)
        ensures
            r == self.spec_side_effects(),
    {
        self.side_effects
    }

    /// Number of registered helpers.
    pub fn len(&self) -> (r: usize)
        ensures
            r == self.count(),
    {
        self.list.len()
    }

    /// Run every helper's first-execution hook, in registration order.
    pub fn first_exec_all(&mut self, emulator: &mut Emulator)
        ensures
            final(self).count() == old(self).count(),
            final(self).spec_side_effects() == old(self).spec_side_effects(),
    {
        let ghost n = self.list@.len();
        let ghost flag = self.side_effects;
        let mut i: usize = 0;
        while i < self.list.len()
            invariant
                self.list@.len() == n,
                self.side_effects == flag,
            decreases n - i,
        {
            let helper = &mut self.list[i];
            helper.first_exec(emulator);
            i = i + 1;
        }
    }

    /// Run every helper's pre-execution hook, in registration order.
    pub fn pre_exec_all(&mut self, emulator: &mut Emulator, input: &Vec<u8>)
        ensures
            final(self).count() == old(self).count(),
            final(self).spec_side_effects() == old(self).spec_side_effects(),
    {
        let ghost n = self.list@.len();
        let ghost flag = self.side_effects;
        let mut i: usize = 0;
        while i < self.list.len()
            invariant
                self.list@.len() == n,
                self.side_effects == flag,
            decreases n - i,
        {
            let helper = &mut self.list[i];
            helper.pre_exec(emulator, input);
            i = i + 1;
        }
    }

    /// Run every helper's post-execution hook, in registration order —
    /// the same order as pre-execution, not reversed.
    pub fn post_exec_all(
        &mut self,
        emulator: &mut Emulator,
        input: &Vec<u8>,
        observers: &mut UserFeatureObserver,
        exit_kind: &mut ExitKind,
    )
        requires
            old(observers).wf(),
        ensures
            final(self).count() == old(self).count(),
            final(self).spec_side_effects() == old(self).spec_side_effects(),
            final(observers).wf(),
    {
        let ghost n = self.list@.len();
        let ghost flag = self.side_effects;
        let mut i: usize = 0;
        while i < self.list.len()
            invariant
                self.list@.len() == n,
                self.side_effects == flag,
                observers.wf(),
            decreases n - i,
        {
            let helper = &mut self.list[i];
            helper.post_exec(emulator, input, observers, exit_kind);
            i = i + 1;
        }
    }
}

} // verus!
