use fuzzcore::emu::Emulator;
use fuzzcore::errors::EngineError;
use fuzzcore::executor::QemuExecutor;
use fuzzcore::executor::QemuForkExecutor;
use fuzzcore::exit_kind::ExitKind;
use fuzzcore::feedbacks::UserFeatureFeedback;
use fuzzcore::harness::Harness;
use fuzzcore::helper::QemuHelper;
use fuzzcore::helper::QemuHelpers;
use fuzzcore::hooks::QemuHooks;
use fuzzcore::observers::UserFeatureObserver;

/// Helper that records every hook invocation in the backend handle:
/// first-execution as id + 100, pre-execution as the bare id, and
/// post-execution as id + 200.
struct RecorderHelper {
    id: u64,
    side_effects: bool,
}

impl QemuHelper for RecorderHelper {
    fn declares_side_effects(&self) -> bool {
        self.side_effects
    }

    fn hooks_have_side_effects(&self) -> bool {
        self.side_effects
    }

    fn first_exec(&mut self, emulator: &mut Emulator) {
        emulator.register_hook(self.id + 100);
    }

    fn pre_exec(&mut self, emulator: &mut Emulator, _input: &Vec<u8>) {
        emulator.register_hook(self.id);
    }

    fn post_exec(
        &mut self,
        emulator: &mut Emulator,
        _input: &Vec<u8>,
        _observers: &mut UserFeatureObserver,
        _exit_kind: &mut ExitKind,
    ) {
        emulator.register_hook(self.id + 200);
    }
}

/// Helper that promotes every outcome to out-of-memory in its
/// post-execution hook.
struct OomPromoter;

impl QemuHelper for OomPromoter {
    fn declares_side_effects(&self) -> bool {
        false
    }

    fn hooks_have_side_effects(&self) -> bool {
        false
    }

    fn first_exec(&mut self, _emulator: &mut Emulator) {}

    fn pre_exec(&mut self, _emulator: &mut Emulator, _input: &Vec<u8>) {}

    fn post_exec(
        &mut self,
        _emulator: &mut Emulator,
        _input: &Vec<u8>,
        _observers: &mut UserFeatureObserver,
        exit_kind: &mut ExitKind,
    ) {
        *exit_kind = ExitKind::Oom;
    }
}

/// Harness reporting a fixed raw outcome.
struct FixedHarness {
    exit_kind: ExitKind,
}

impl Harness for FixedHarness {
    fn run(&mut self, _input: &Vec<u8>, _observers: &mut UserFeatureObserver) -> ExitKind {
        self.exit_kind
    }
}

/// Harness writing the feature vector of the end-to-end scenario: slot 0
/// stays 1, slot 8 is 5 on the first call and 10 afterwards.
struct WritingHarness {
    calls: u64,
}

impl Harness for WritingHarness {
    fn run(&mut self, _input: &Vec<u8>, observers: &mut UserFeatureObserver) -> ExitKind {
        observers.set_feature(0, 1);
        observers.set_feature(8, if self.calls == 0 { 5 } else { 10 });
        self.calls += 1;
        ExitKind::Okay
    }
}

fn recorder_hooks(ids: &[u64]) -> QemuHooks<RecorderHelper> {
    let mut helpers = QemuHelpers::new();
    for id in ids {
        helpers.register(RecorderHelper { id: *id, side_effects: false });
    }
    QemuHooks::new(Emulator::new(), helpers)
}

#[test]
fn hooks_run_in_registration_order() {
    let hooks = recorder_hooks(&[1, 2, 3]);
    let mut executor = QemuExecutor::new(
        hooks,
        FixedHarness { exit_kind: ExitKind::Okay },
        UserFeatureObserver::new(),
        100,
    )
    .unwrap();
    executor.run_target(&vec![0u8]).unwrap();
    assert_eq!(
        executor.emulator().hook_registrations(),
        &vec![101, 102, 103, 1, 2, 3, 201, 202, 203],
    );
    // The first-execution hooks fired exactly once: a second run only
    // appends the pre- and post-execution rounds, again in order.
    executor.run_target(&vec![0u8]).unwrap();
    assert_eq!(
        executor.emulator().hook_registrations(),
        &vec![101, 102, 103, 1, 2, 3, 201, 202, 203, 1, 2, 3, 201, 202, 203],
    );
}

#[test]
fn fork_isolation_rejects_side_effecting_helpers() {
    let mut helpers = QemuHelpers::new();
    helpers.register(RecorderHelper { id: 1, side_effects: true });
    let hooks = QemuHooks::new(Emulator::new(), helpers);
    let result = QemuForkExecutor::new(
        hooks,
        FixedHarness { exit_kind: ExitKind::Okay },
        UserFeatureObserver::new(),
        100,
        4096,
    );
    assert!(matches!(result, Err(EngineError::ForkWithSideEffectingHooks)));
}

#[test]
fn fork_isolation_needs_room_for_one_record() {
    let result = QemuForkExecutor::new(
        recorder_hooks(&[1]),
        FixedHarness { exit_kind: ExitKind::Okay },
        UserFeatureObserver::new(),
        100,
        64,
    );
    assert!(matches!(result, Err(EngineError::SharedMemorySetup)));
    let result = QemuForkExecutor::new(
        recorder_hooks(&[1]),
        FixedHarness { exit_kind: ExitKind::Okay },
        UserFeatureObserver::new(),
        100,
        129,
    );
    assert!(result.is_ok());
}

#[test]
fn timeout_outcome_leaves_engine_usable() {
    // A harness that never returns is cut short by the alarm; the
    // recovery path reports the run's outcome as a timeout.
    let mut executor = QemuExecutor::new(
        recorder_hooks(&[1]),
        FixedHarness { exit_kind: ExitKind::Timeout },
        UserFeatureObserver::new(),
        100,
    )
    .unwrap();
    assert_eq!(executor.run_target(&vec![7u8]).unwrap(), ExitKind::Timeout);
    // The engine stays usable for subsequent runs.
    assert_eq!(executor.run_target(&vec![7u8]).unwrap(), ExitKind::Timeout);
}

#[test]
fn post_hook_overrides_exit_kind() {
    let mut helpers = QemuHelpers::new();
    helpers.register(OomPromoter);
    let hooks = QemuHooks::new(Emulator::new(), helpers);
    let mut executor = QemuExecutor::new(
        hooks,
        FixedHarness { exit_kind: ExitKind::Crash },
        UserFeatureObserver::new(),
        100,
    )
    .unwrap();
    assert_eq!(executor.run_target(&vec![0u8]).unwrap(), ExitKind::Oom);
}

#[test]
fn end_to_end_run_and_feedback() {
    let mut executor = QemuExecutor::new(
        recorder_hooks(&[1]),
        WritingHarness { calls: 0 },
        UserFeatureObserver::new(),
        100,
    )
    .unwrap();
    let mut feedback = UserFeatureFeedback::new();
    assert_eq!(executor.run_target(&vec![0u8]).unwrap(), ExitKind::Okay);
    // Call 1: slot 0 novel, slot 8 grows from 0 to 5.
    assert!(feedback.is_interesting(executor.observers()));
    assert_eq!(executor.run_target(&vec![0u8]).unwrap(), ExitKind::Okay);
    // Call 2: slot 0 not novel, slot 8 grows from 5 to 10.
    assert!(feedback.is_interesting(executor.observers()));
}

#[test]
fn fork_executor_transfers_the_record() {
    let mut executor = QemuForkExecutor::new(
        recorder_hooks(&[1]),
        WritingHarness { calls: 0 },
        UserFeatureObserver::new(),
        100,
        4096,
    )
    .unwrap();
    assert_eq!(executor.run_target(&vec![0u8]).unwrap(), ExitKind::Okay);
    // The child's observer record crossed the boundary unchanged.
    assert_eq!(executor.observers().user_features()[0], 1);
    assert_eq!(executor.observers().user_features()[8], 5);
    let mut feedback = UserFeatureFeedback::new();
    assert!(feedback.is_interesting(executor.observers()));
}
