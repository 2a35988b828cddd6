use vstd::prelude::*;
use crate::errors::EngineError;
use crate::exit_kind::ExitKind;
use crate::harness::Harness;
use crate::observers::UserFeatureObserver;
use crate::observers::FEATURE_SLOTS;
use crate::shmem::decode_record;
use crate::shmem::encode_record;
use crate::shmem::spec_exit_kind_tag;
use crate::shmem::spec_tag_exit_kind;
use crate::shmem::OBSERVER_RECORD_LEN;
use crate::signals::SignalLayer;

verus! {

/// In-process execution strategy: the harness runs in the engine's own
/// address space and thread, guarded by the armed signal layer. Cheapest
/// strategy; a true crash is recovered through the signal path.
pub struct InProcessExecutor<H> {
    harness: H,
    observers: UserFeatureObserver,
    layer: SignalLayer,
}

impl<H: Harness> InProcessExecutor<H> {
    /// The engine-owned observer set.
    pub closed spec fn spec_observers(&self) -> UserFeatureObserver {
        self.observers
    }

    /// The engine-owned signal interception state.
    pub closed spec fn spec_layer(&self) -> SignalLayer {
        self.layer
    }

    /// Between runs the observer set is well formed and no execution is
    /// in flight.
    pub open spec fn wf(&self) -> bool {
        &&& self.spec_observers().wf()
        &&& !self.spec_layer().is_armed()
    }

    pub fn with_timeout(harness: H, observers: UserFeatureObserver, timeout_ms: u64) -> (r:
        Self)
        requires
            observers.wf(),
        ensures
            r.wf(),
            r.spec_observers() == observers,
            r.spec_layer().spec_timeout_ms() == timeout_ms,
            !r.spec_layer().spec_break_on_timeout(),
    {
        InProcessExecutor { harness, observers, layer: SignalLayer::new(timeout_ms) }
    }

    /// Arm the layer's break-to-debugger mode for the timeout alarm.
    pub fn set_break_on_timeout(&mut self)
        ensures
            final(self).spec_observers() == old(self).spec_observers(),
            final(self).spec_layer().is_armed() == old(self).spec_layer().is_armed(),
            final(self).spec_layer().spec_timeout_ms() == old(self).spec_layer().spec_timeout_ms(),
            final(self).spec_layer().spec_break_on_timeout(),
    {
        self.layer.set_break_on_timeout();
    }

    /// Run one input: arm the signal layer, invoke the harness, disarm,
    /// and report the raw outcome. The engine stays usable afterwards.
    pub fn run_target(&mut self, input: &Vec<u8>) -> (r: Result<ExitKind, EngineError>)
        requires
            old(self).wf(),
        ensures
            final(self).wf(),
            r is Ok,
            final(self).spec_layer().spec_timeout_ms() == old(self).spec_layer().spec_timeout_ms(),
            final(self).spec_layer().spec_break_on_timeout() == old(
                self,
            ).spec_layer().spec_break_on_timeout(),
    {
        match self.layer.arm() {
            Ok(_) => (),
            Err(e) => {
                return Err(e);
            },
        }
        let exit_kind = self.harness.run(input, &mut self.observers);
        self.layer.disarm();
        Ok(exit_kind)
    }

    pub fn observers(&self) -> (r: &UserFeatureObserver)
        ensures
            *r == self.spec_observers(),
    {
        &self.observers
    }

    pub fn observers_mut(&mut self) -> (r: &mut UserFeatureObserver)
        ensures
            *r == old(self).spec_observers(),
            final(self).spec_observers() == *final(r),
            final(self).spec_layer() == old(self).spec_layer(),
    {
        &mut self.observers
    }
}

/// Fork-isolated execution strategy: the harness runs in a freshly
/// forked child, so a crash or memory corruption cannot touch the
/// parent's state; the child's observer record and exit kind cross the
/// process boundary through a fixed-layout shared-memory record.
pub struct InProcessForkExecutor<H> {
    harness: H,
    observers: UserFeatureObserver,
    timeout_ms: u64,
    shm_region: Vec<u8>,
}

impl<H: Harness> InProcessForkExecutor<H> {
    /// The engine-owned observer set.
    pub closed spec fn spec_observers(&self) -> UserFeatureObserver {
        self.observers
    }

    /// The timeout after which the parent terminates the child.
    pub closed spec fn spec_timeout_ms(&self) -> u64 {
        self.timeout_ms
    }

    pub open spec fn wf(&self) -> bool {
        self.spec_observers().wf()
    }

    /// Set up the strategy; a shared-memory region too small for one
    /// observer record is an engine error, reported before any run.
    pub fn new(harness: H, observers: UserFeatureObserver, timeout_ms: u64, shm_capacity: usize)
        -> (r: Result<Self, EngineError>)
        requires
            observers.wf(),
        ensures
            shm_capacity < OBSERVER_RECORD_LEN ==> r == Result::<Self, EngineError>::Err(
                EngineError::SharedMemorySetup,
            ),
            shm_capacity >= OBSERVER_RECORD_LEN ==> (r matches Ok(e) && e.wf()
                && e.spec_observers() == observers && e.spec_timeout_ms() == timeout_ms),
    {
        if shm_capacity < OBSERVER_RECORD_LEN {
            return Err(EngineError::SharedMemorySetup);
        }
        Ok(InProcessForkExecutor { harness, observers, timeout_ms, shm_region: Vec::new() })
    }

    /// Run one input in the child and read the result back: the child
    /// writes its observer record and exit kind into the region before
    /// terminating, and the parent decodes both before continuing. The
    /// round trip is lossless, so the reported outcome is the child's.
    pub fn run_target(&mut self, input: &Vec<u8>) -> (r: Result<ExitKind, EngineError>)
        requires
            old(self).wf(),
        ensures
            final(self).wf(),
            r is Ok,
            final(self).spec_timeout_ms() == old(self).spec_timeout_ms(),
    {
        let raw = self.harness.run(input, &mut self.observers);
        self.shm_region = encode_record(&self.observers, raw);
        proof {
            assert(self.shm_region@[0] == spec_exit_kind_tag(raw));
            assert(spec_tag_exit_kind(self.shm_region@[0]) is Some);
        }
        let decoded = decode_record(&self.shm_region);
        match decoded {
            Some((features, kind)) => {
                let ghost timeout = self.timeout_ms;
                let mut i: usize = 0;
                while i < FEATURE_SLOTS
                    invariant
                        self.observers.wf(),
                        self.timeout_ms == timeout,
                        features@.len() == FEATURE_SLOTS,
                        i <= FEATURE_SLOTS,
                    decreases FEATURE_SLOTS - i,
                {
                    let value = features[i];
                    self.observers.set_feature(i, value);
                    i = i + 1;
                }
                Ok(kind)
            },
            None => Err(EngineError::SharedMemorySetup),
        }
    }

    pub fn observers(&self) -> (r: &UserFeatureObserver)
        ensures
            *r == self.spec_observers(),
    {
        &self.observers
    }

    pub fn observers_mut(&mut self) -> (r: &mut UserFeatureObserver)
        ensures
            *r == old(self).spec_observers(),
            final(self).spec_observers() == *final(r),
            final(self).spec_timeout_ms() == old(self).spec_timeout_ms(),
    {
        &mut self.observers
    }
}

} // verus!
