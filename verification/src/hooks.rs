use vstd::prelude::*;
use crate::emu::Emulator;
use crate::exit_kind::ExitKind;
use crate::helper::QemuHelper;
use crate::helper::QemuHelpers;
use crate::observers::UserFeatureObserver;

verus! {

/// Hook context an executor drives: the instrumentation backend handle
/// together with the registered helper pipeline.
pub struct QemuHooks<QT> {
    emulator: Emulator,
    helpers: QemuHelpers<QT>,
}

impl<QT: QemuHelper> QemuHooks<QT> {
    /// The helper pipeline as registered.
    pub closed spec fn spec_helpers(&self) -> QemuHelpers<QT> {
        self.helpers
    }

    /// The backend handle's state.
    pub closed spec fn spec_emulator(&self) -> Emulator {
        self.emulator
    }

    pub fn new(emulator: Emulator, helpers: QemuHelpers<QT>) -> (r: Self)
        ensures
            r.spec_emulator() == emulator,
            r.spec_helpers() == helpers,
    {
        QemuHooks { emulator, helpers }
    }

    pub fn helpers(&self) -> (r: &QemuHelpers<QT>)
        ensures
            *r == self.spec_helpers(),
    {
        &self.helpers
    }

    pub fn helpers_mut(&mut self) -> (r: &mut QemuHelpers<QT>)
        ensures
            *r == old(self).spec_helpers(),
            final(self).spec_helpers() == *final(r),
            final(self).spec_emulator() == old(self).spec_emulator(),
    {
        &mut self.helpers
    }

    pub fn emulator(&self) -> (r: &Emulator)
        ensures
            *r == self.spec_emulator(),
    {
        &self.emulator
    }

    pub fn emulator_mut(&mut self) -> (r: &mut Emulator)
        ensures
            *r == old(self).spec_emulator(),
            final(self).spec_emulator() == *final(r),
            final(self).spec_helpers() == old(self).spec_helpers(),
    {
        &mut self.emulator
    }

    /// Drive every helper's first-execution hook, in registration order.
    pub fn first_exec_all(&mut self)
        ensures
            final(self).spec_helpers().count() == old(self).spec_helpers().count(),
            final(self).spec_helpers().spec_side_effects() == old(
                self,
            ).spec_helpers().spec_side_effects(),
    {
        self.helpers.first_exec_all(&mut self.emulator);
    }

    /// Drive every helper's pre-execution hook, in registration order.
    pub fn pre_exec_all(&mut self, input: &Vec<u8>)
        ensures
            final(self).spec_helpers().count() == old(self).spec_helpers().count(),
            final(self).spec_helpers().spec_side_effects() == old(
                self,
            ).spec_helpers().spec_side_effects(),
    {
        self.helpers.pre_exec_all(&mut self.emulator, input);
    }

    /// Drive every helper's post-execution hook, in registration order.
    pub fn post_exec_all(
        &mut self,
        input: &Vec<u8>,
        observers: &mut UserFeatureObserver,
        exit_kind: &mut ExitKind,
    )
        requires
            old(observers).wf(),
        ensures
            final(self).spec_helpers().count() == old(self).spec_helpers().count(),
            final(self).spec_helpers().spec_side_effects() == old(
                self,
            ).spec_helpers().spec_side_effects(),
            final(observers).wf(),
    {
        self.helpers.post_exec_all(&mut self.emulator, input, observers, exit_kind);
    }
}

} // verus!
