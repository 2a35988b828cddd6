use fuzzcore::errors::EngineError;
use fuzzcore::exit_kind::ExitKind;
use fuzzcore::signals::signal_decision;
use fuzzcore::signals::SignalClass;
use fuzzcore::signals::SignalDecision;
use fuzzcore::signals::SignalLayer;

#[test]
fn fatal_signals_classify_as_crash_or_oom() {
    assert_eq!(
        signal_decision(SignalClass::AccessViolation, false, false),
        SignalDecision::Recover(ExitKind::Crash),
    );
    assert_eq!(
        signal_decision(SignalClass::Abort, false, true),
        SignalDecision::Recover(ExitKind::Crash),
    );
    assert_eq!(
        signal_decision(SignalClass::AccessViolation, true, false),
        SignalDecision::Recover(ExitKind::Oom),
    );
    assert_eq!(
        signal_decision(SignalClass::Abort, true, false),
        SignalDecision::Recover(ExitKind::Oom),
    );
}

#[test]
fn timeout_alarm_classifies_as_timeout_or_debug_break() {
    assert_eq!(
        signal_decision(SignalClass::TimeoutAlarm, false, false),
        SignalDecision::Recover(ExitKind::Timeout),
    );
    assert_eq!(
        signal_decision(SignalClass::TimeoutAlarm, true, false),
        SignalDecision::Recover(ExitKind::Timeout),
    );
    assert_eq!(
        signal_decision(SignalClass::TimeoutAlarm, false, true),
        SignalDecision::DebugBreak,
    );
}

#[test]
fn arming_twice_fails_loudly() {
    let mut layer = SignalLayer::new(100);
    assert!(layer.arm().is_ok());
    assert_eq!(layer.arm(), Err(EngineError::ExecutionInFlight));
    layer.disarm();
    assert!(layer.arm().is_ok());
}
