use vstd::prelude::*;

verus! {

/// Model of the instrumentation backend handle the engine passes to the
/// helper hooks: current-execution introspection (the out-of-memory
/// probe) and the registration point for instrumentation hooks. Each
/// registration is recorded in order, identified by a caller-chosen id.
pub struct Emulator {
    oom_detected: bool,
    hook_registrations: Vec<u64>,
}

impl Emulator {
    /// Whether the backend observed memory exhaustion in the current
    /// execution.
    pub closed spec fn spec_oom_detected(&self) -> bool {
        self.oom_detected
    }

    /// Every hook registration so far, in registration order.
    pub closed spec fn registrations(&self) -> Seq<u64> {
        self.hook_registrations@
    }

    pub fn new() -> (r: Self)
        ensures
            !r.spec_oom_detected(),
            r.registrations() == Seq::<u64>::empty(),
    {
        Emulator { oom_detected: false, hook_registrations: Vec::new() }
    }

    /// Register one instrumentation hook; registrations are kept in order.
    pub fn register_hook(&mut self, id: u64)
        ensures
            final(self).registrations() == old(self).registrations() + seq![id],
            final(self).spec_oom_detected() == old(self).spec_oom_detected(),
    {
        self.hook_registrations.push(id);
    }

    /// The recorded registrations, oldest first.
    pub fn hook_registrations(&self) -> (r: &Vec<u64>)
        ensures
            r@ == self.registrations(),
    {
        &self.hook_registrations
    }

    /// Query the out-of-memory probe.
    pub fn oom_detected(&self) -> (r: bool)
        ensures
            r == self.spec_oom_detected(),
    {
        self.oom_detected
    }

    /// Record the probe's state; set by the embedding allocator hooks.
    pub fn set_oom_detected(&mut self, value: bool)
        ensures
            final(self).spec_oom_detected() == value,
            final(self).registrations() == old(self).registrations(),
    {
        self.oom_detected = value;
    }
}

} // verus!
