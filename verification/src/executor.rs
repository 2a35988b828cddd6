use vstd::prelude::*;
use crate::emu::Emulator;
use crate::errors::EngineError;
use crate::exit_kind::ExitKind;
use crate::harness::Harness;
use crate::helper::QemuHelper;
use crate::hooks::QemuHooks;
use crate::inprocess::InProcessExecutor;
use crate::inprocess::InProcessForkExecutor;
use crate::observers::UserFeatureObserver;
use crate::shmem::OBSERVER_RECORD_LEN;

verus! {

/// In-process executor driving the helper pipeline around each run:
/// one-time setup on the very first run, pre-execution hooks in
/// registration order, the harness under the armed signal layer, then
/// post-execution hooks in the same order with the right to override
/// the outcome.
pub struct QemuExecutor<H, QT> {
    hooks: QemuHooks<QT>,
    inner: InProcessExecutor<H>,
    first_exec: bool,
}

impl<H: Harness, QT: QemuHelper> QemuExecutor<H, QT> {
    /// The hook context: backend handle plus helper pipeline.
    pub closed spec fn spec_hooks(&self) -> QemuHooks<QT> {
        self.hooks
    }

    /// The wrapped in-process engine.
    pub closed spec fn spec_inner(&self) -> InProcessExecutor<H> {
        self.inner
    }

    /// Whether the one-time first-execution setup is still pending.
    pub closed spec fn spec_first_exec(&self) -> bool {
        self.first_exec
    }

    pub open spec fn wf(&self) -> bool {
        self.spec_inner().wf()
    }

    pub fn new(
        hooks: QemuHooks<QT>,
        harness: H,
        observers: UserFeatureObserver,
        timeout_ms: u64,
    ) -> (r: Result<Self, EngineError>)
        requires
            observers.wf(),
        ensures
            r matches Ok(e) && e.wf() && e.spec_first_exec() && e.spec_hooks() == hooks
                && e.spec_inner().spec_observers() == observers
                && e.spec_inner().spec_layer().spec_timeout_ms() == timeout_ms
                && !e.spec_inner().spec_layer().spec_break_on_timeout(),
    {
        let inner = InProcessExecutor::with_timeout(harness, observers, timeout_ms);
        Ok(QemuExecutor { hooks, inner, first_exec: true })
    }

    pub fn inner(&self) -> (r: &InProcessExecutor<H>)
        ensures
            *r == self.spec_inner(),
    {
        &self.inner
    }

    pub fn inner_mut(&mut self) -> (r: &mut InProcessExecutor<H>)
        ensures
            *r == old(self).spec_inner(),
            final(self).spec_inner() == *final(r),
            final(self).spec_hooks() == old(self).spec_hooks(),
            final(self).spec_first_exec() == old(self).spec_first_exec(),
    {
        &mut self.inner
    }

    /// Arm the break-to-debugger mode for the timeout alarm.
    pub fn break_on_timeout(&mut self)
        ensures
            final(self).spec_inner().spec_layer().spec_break_on_timeout(),
            final(self).spec_inner().spec_observers() == old(self).spec_inner().spec_observers(),
            final(self).spec_inner().spec_layer().is_armed() == old(
                self,
            ).spec_inner().spec_layer().is_armed(),
            final(self).spec_inner().spec_layer().spec_timeout_ms() == old(
                self,
            ).spec_inner().spec_layer().spec_timeout_ms(),
            final(self).spec_hooks() == old(self).spec_hooks(),
            final(self).spec_first_exec() == old(self).spec_first_exec(),
    {
        self.inner.set_break_on_timeout();
    }

    pub fn hooks(&self) -> (r: &QemuHooks<QT>)
        ensures
            *r == self.spec_hooks(),
    {
        &self.hooks
    }

    pub fn hooks_mut(&mut self) -> (r: &mut QemuHooks<QT>)
        ensures
            *r == old(self).spec_hooks(),
            final(self).spec_hooks() == *final(r),
            final(self).spec_inner() == old(self).spec_inner(),
            final(self).spec_first_exec() == old(self).spec_first_exec(),
    {
        &mut self.hooks
    }

    pub fn emulator(&self) -> (r: &Emulator)
        ensures
            *r == self.spec_hooks().spec_emulator(),
    {
        self.hooks.emulator()
    }

    /// Run one input: on the very first run only, every helper's
    /// first-execution hook fires, in registration order, before any
    /// pre-execution hook; then pre-execution hooks, the harness under
    /// the armed signal layer, and post-execution hooks in the same
    /// order, which may override the outcome. The engine stays usable.
    pub fn run_target(&mut self, input: &Vec<u8>) -> (r: Result<ExitKind, EngineError>)
        requires
            old(self).wf(),
        ensures
            final(self).wf(),
            r is Ok,
            !final(self).spec_first_exec(),
            final(self).spec_hooks().spec_helpers().count() == old(
                self,
            ).spec_hooks().spec_helpers().count(),
            final(self).spec_hooks().spec_helpers().spec_side_effects() == old(
                self,
            ).spec_hooks().spec_helpers().spec_side_effects(),
            final(self).spec_inner().spec_layer().spec_timeout_ms() == old(
                self,
            ).spec_inner().spec_layer().spec_timeout_ms(),
            final(self).spec_inner().spec_layer().spec_break_on_timeout() == old(
                self,
            ).spec_inner().spec_layer().spec_break_on_timeout(),
    {
        if self.first_exec {
            self.hooks.first_exec_all();
            self.first_exec = false;
        }
        self.hooks.pre_exec_all(input);
        let mut exit_kind = match self.inner.run_target(input) {
            Ok(kind) => kind,
            Err(e) => {
                return Err(e);
            },
        };
        self.hooks.post_exec_all(input, self.inner.observers_mut(), &mut exit_kind);
        Ok(exit_kind)
    }

    pub fn observers(&self) -> (r: &UserFeatureObserver)
        ensures
            *r == self.spec_inner().spec_observers(),
    {
        self.inner.observers()
    }

    pub fn observers_mut(&mut self) -> (r: &mut UserFeatureObserver)
        ensures
            *r == old(self).spec_inner().spec_observers(),
            final(self).spec_inner().spec_observers() == *final(r),
            final(self).spec_inner().spec_layer() == old(self).spec_inner().spec_layer(),
            final(self).spec_hooks() == old(self).spec_hooks(),
            final(self).spec_first_exec() == old(self).spec_first_exec(),
    {
        self.inner.observers_mut()
    }
}

/// Fork-isolated executor with the same hook choreography. Hard
/// precondition: a helper pipeline declaring side-effecting hooks is
/// rejected at construction time, since effects performed in the child
/// would be silently discarded when it exits.
pub struct QemuForkExecutor<H, QT> {
    hooks: QemuHooks<QT>,
    inner: InProcessForkExecutor<H>,
    first_exec: bool,
}

impl<H: Harness, QT: QemuHelper> QemuForkExecutor<H, QT> {
    /// The hook context: backend handle plus helper pipeline.
    pub closed spec fn spec_hooks(&self) -> QemuHooks<QT> {
        self.hooks
    }

    /// The wrapped fork-isolated engine.
    pub closed spec fn spec_inner(&self) -> InProcessForkExecutor<H> {
        self.inner
    }

    /// Whether the one-time first-execution setup is still pending.
    pub closed spec fn spec_first_exec(&self) -> bool {
        self.first_exec
    }

    pub open spec fn wf(&self) -> bool {
        self.spec_inner().wf()
    }

    /// Construction fails with a configuration error, before any input
    /// is executed, exactly when the pipeline declares side-effecting
    /// hooks; then a too-small shared-memory region is an engine error.
    pub fn new(
        hooks: QemuHooks<QT>,
        harness: H,
        observers: UserFeatureObserver,
        timeout_ms: u64,
        shm_capacity: usize,
    ) -> (r: Result<Self, EngineError>)
        requires
            observers.wf(),
        ensures
            hooks.spec_helpers().spec_side_effects() ==> r == Result::<Self, EngineError>::Err(
                EngineError::ForkWithSideEffectingHooks,
            ),
            !hooks.spec_helpers().spec_side_effects() && shm_capacity < OBSERVER_RECORD_LEN
                ==> r == Result::<Self, EngineError>::Err(EngineError::SharedMemorySetup),
            !hooks.spec_helpers().spec_side_effects() && shm_capacity >= OBSERVER_RECORD_LEN
                ==> (r matches Ok(e) && e.wf() && e.spec_first_exec() && e.spec_hooks() == hooks
                && e.spec_inner().spec_observers() == observers
                && e.spec_inner().spec_timeout_ms() == timeout_ms),
    {
        if hooks.helpers().hooks_have_side_effects() {
            return Err(EngineError::ForkWithSideEffectingHooks);
        }
        let inner = match InProcessForkExecutor::new(harness, observers, timeout_ms, shm_capacity) {
            Ok(inner) => inner,
            Err(e) => {
                return Err(e);
            },
        };
        Ok(QemuForkExecutor { hooks, inner, first_exec: true })
    }

    pub fn inner(&self) -> (r: &InProcessForkExecutor<H>)
        ensures
            *r == self.spec_inner(),
    {
        &self.inner
    }

    pub fn inner_mut(&mut self) -> (r: &mut InProcessForkExecutor<H>)
        ensures
            *r == old(self).spec_inner(),
            final(self).spec_inner() == *final(r),
            final(self).spec_hooks() == old(self).spec_hooks(),
            final(self).spec_first_exec() == old(self).spec_first_exec(),
    {
        &mut self.inner
    }

    pub fn hooks(&self) -> (r: &QemuHooks<QT>)
        ensures
            *r == self.spec_hooks(),
    {
        &self.hooks
    }

    pub fn hooks_mut(&mut self) -> (r: &mut QemuHooks<QT>)
        ensures
            *r == old(self).spec_hooks(),
            final(self).spec_hooks() == *final(r),
            final(self).spec_inner() == old(self).spec_inner(),
            final(self).spec_first_exec() == old(self).spec_first_exec(),
    {
        &mut self.hooks
    }

    pub fn emulator(&self) -> (r: &Emulator)
        ensures
            *r == self.spec_hooks().spec_emulator(),
    {
        self.hooks.emulator()
    }

    /// Same choreography as the in-process executor; the harness runs in
    /// the child and its record crosses the shared-memory boundary
    /// before the post-execution hooks see it.
    pub fn run_target(&mut self, input: &Vec<u8>) -> (r: Result<ExitKind, EngineError>)
        requires
            old(self).wf(),
        ensures
            final(self).wf(),
            r is Ok,
            !final(self).spec_first_exec(),
            final(self).spec_hooks().spec_helpers().count() == old(
                self,
            ).spec_hooks().spec_helpers().count(),
            final(self).spec_hooks().spec_helpers().spec_side_effects() == old(
                self,
            ).spec_hooks().spec_helpers().spec_side_effects(),
            final(self).spec_inner().spec_timeout_ms() == old(
                self,
            ).spec_inner().spec_timeout_ms(),
    {
        if self.first_exec {
            self.hooks.first_exec_all();
            self.first_exec = false;
        }
        self.hooks.pre_exec_all(input);
        let mut exit_kind = match self.inner.run_target(input) {
            Ok(kind) => kind,
            Err(e) => {
                return Err(e);
            },
        };
        self.hooks.post_exec_all(input, self.inner.observers_mut(), &mut exit_kind);
        Ok(exit_kind)
    }

    pub fn observers(&self) -> (r: &UserFeatureObserver)
        ensures
            *r == self.spec_inner().spec_observers(),
    {
        self.inner.observers()
    }

    pub fn observers_mut(&mut self) -> (r: &mut UserFeatureObserver)
        ensures
            *r == old(self).spec_inner().spec_observers(),
            final(self).spec_inner().spec_observers() == *final(r),
            final(self).spec_inner().spec_timeout_ms() == old(
                self,
            ).spec_inner().spec_timeout_ms(),
            final(self).spec_hooks() == old(self).spec_hooks(),
            final(self).spec_first_exec() == old(self).spec_first_exec(),
    {
        self.inner.observers_mut()
    }
}

} // verus!
