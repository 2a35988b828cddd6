use vstd::prelude::*;
use crate::errors::EngineError;
use crate::exit_kind::ExitKind;

verus! {

/// Class of an intercepted asynchronous signal, as seen by the
/// process-wide handler table.
#[derive(Clone, Copy, Debug, PartialEq, Eq, Structural)]
pub enum SignalClass {
    /// Fatal access violations and similar memory faults.
    AccessViolation,
    /// Aborts raised by the target or its runtime.
    Abort,
    /// The armed timeout alarm fired.
    TimeoutAlarm,
}

/// What the shared recovery routine does for one intercepted signal.
#[derive(Clone, Copy, Debug, PartialEq, Eq, Structural)]
pub enum SignalDecision {
    /// Divert to the engine's recovery entry point, which arranges for
    /// the run to return this outcome.
    Recover(ExitKind),
    /// Request a debugger break and keep the execution alive.
    DebugBreak,
}

/// Classification performed at signal time: a fatal or abort signal is a
/// crash unless the out-of-memory probe reports true; the timeout alarm
/// recovers as a timeout unless the break-to-debugger mode is armed.
pub fn signal_decision(class: SignalClass, oom_probe: bool, break_on_timeout: bool) -> (d:
    SignalDecision)
    ensures
        class != SignalClass::TimeoutAlarm && oom_probe ==> d == SignalDecision::Recover(
            ExitKind::Oom,
        ),
        class != SignalClass::TimeoutAlarm && !oom_probe ==> d == SignalDecision::Recover(
            ExitKind::Crash,
        ),
        class == SignalClass::TimeoutAlarm && break_on_timeout ==> d
            == SignalDecision::DebugBreak,
        class == SignalClass::TimeoutAlarm && !break_on_timeout ==> d
            == SignalDecision::Recover(ExitKind::Timeout),
{
    match class {
        SignalClass::AccessViolation | SignalClass::Abort => {
            if oom_probe {
                SignalDecision::Recover(ExitKind::Oom)
            } else {
                SignalDecision::Recover(ExitKind::Crash)
            }
        },
        SignalClass::TimeoutAlarm => {
            if break_on_timeout {
                SignalDecision::DebugBreak
            } else {
                SignalDecision::Recover(ExitKind::Timeout)
            }
        },
    }
}

/// The signal interception layer's per-engine state: an explicitly owned
/// arming token replacing implicit process-global handler state. Exactly
/// one execution may be in flight; arming twice fails loudly.
pub struct SignalLayer {
    armed: bool,
    timeout_ms: u64,
    break_on_timeout: bool,
}

impl SignalLayer {
    /// Whether an execution is currently in flight.
    pub closed spec fn is_armed(&self) -> bool {
        self.armed
    }

    /// The configured timeout, in milliseconds.
    pub closed spec fn spec_timeout_ms(&self) -> u64 {
        self.timeout_ms
    }

    /// Whether the timeout alarm requests a debugger break instead of
    /// recovering as a timeout.
    pub closed spec fn spec_break_on_timeout(&self) -> bool {
        self.break_on_timeout
    }

    pub fn new(timeout_ms: u64) -> (r: Self)
        ensures
            !r.is_armed(),
            r.spec_timeout_ms() == timeout_ms,
            !r.spec_break_on_timeout(),
    {
        SignalLayer { armed: false, timeout_ms, break_on_timeout: false }
    }

    /// Arm the break-to-debugger mode for the timeout alarm.
    pub fn set_break_on_timeout(&mut self)
        ensures
            final(self).spec_break_on_timeout(),
            final(self).is_armed() == old(self).is_armed(),
            final(self).spec_timeout_ms() == old(self).spec_timeout_ms(),
    {
        self.break_on_timeout = true;
    }

    /// Arm the layer for one execution; fails loudly when an execution is
    /// already in flight.
    pub fn arm(&mut self) -> (r: Result<(), EngineError>)
        ensures
            !old(self).is_armed() ==> r is Ok && final(self).is_armed(),
            old(self).is_armed() ==> r == Result::<(), EngineError>::Err(
                EngineError::ExecutionInFlight,
            ) && *final(self) == *old(self),
            final(self).spec_timeout_ms() == old(self).spec_timeout_ms(),
            final(self).spec_break_on_timeout() == old(self).spec_break_on_timeout(),
    {
        if self.armed {
            Err(EngineError::ExecutionInFlight)
        } else {
            self.armed = true;
            Ok(())
        }
    }

    /// Disarm the layer once the execution's outcome is settled.
    pub fn disarm(&mut self)
        ensures
            !final(self).is_armed(),
            final(self).spec_timeout_ms() == old(self).spec_timeout_ms(),
            final(self).spec_break_on_timeout() == old(self).spec_break_on_timeout(),
    {
        self.armed = false;
    }
}

} // verus!
