use fuzzcore::corpus::Testcase;
use fuzzcore::exit_kind::ExitKind;
use fuzzcore::feedbacks::LibfuzzerCrashCauseFeedback;
use fuzzcore::naming::generate_name;
use fuzzcore::options::ArtifactPrefix;

fn classifier() -> LibfuzzerCrashCauseFeedback {
    LibfuzzerCrashCauseFeedback::new(ArtifactPrefix::new(
        "artifacts".to_string(),
        "pre-".to_string(),
    ))
}

fn named_testcase() -> Testcase {
    let mut testcase = Testcase::new(vec![1, 2, 3]);
    testcase.set_filename("case1".to_string());
    testcase
}

fn path_of(testcase: &Testcase) -> String {
    testcase.file_path().clone().unwrap()
}

fn kind_of(testcase: &Testcase) -> ExitKind {
    testcase.metadata().as_ref().unwrap().kind()
}

#[test]
fn crash_with_oom_probe_is_oom() {
    let mut classifier = classifier();
    classifier.is_interesting(&ExitKind::Crash);
    let mut testcase = named_testcase();
    classifier.append_metadata(true, &mut testcase);
    assert_eq!(path_of(&testcase), "artifacts/pre-oom-case1");
    assert_eq!(kind_of(&testcase), ExitKind::Oom);
}

#[test]
fn timeout_without_oom_probe_is_timeout() {
    let mut classifier = classifier();
    classifier.is_interesting(&ExitKind::Timeout);
    let mut testcase = named_testcase();
    classifier.append_metadata(false, &mut testcase);
    assert_eq!(path_of(&testcase), "artifacts/pre-timeout-case1");
    assert_eq!(kind_of(&testcase), ExitKind::Timeout);
}

#[test]
fn crash_without_oom_probe_is_crash() {
    let mut classifier = classifier();
    classifier.is_interesting(&ExitKind::Crash);
    let mut testcase = named_testcase();
    classifier.append_metadata(false, &mut testcase);
    assert_eq!(path_of(&testcase), "artifacts/pre-crash-case1");
    assert_eq!(kind_of(&testcase), ExitKind::Crash);
}

#[test]
fn timeout_with_oom_probe_is_oom() {
    let mut classifier = classifier();
    classifier.is_interesting(&ExitKind::Timeout);
    let mut testcase = named_testcase();
    classifier.append_metadata(true, &mut testcase);
    assert_eq!(path_of(&testcase), "artifacts/pre-oom-case1");
    assert_eq!(kind_of(&testcase), ExitKind::Oom);
}

#[test]
fn normal_exit_is_uncategorized() {
    let mut classifier = classifier();
    classifier.is_interesting(&ExitKind::Okay);
    let mut testcase = named_testcase();
    classifier.append_metadata(false, &mut testcase);
    assert_eq!(path_of(&testcase), "artifacts/pre-uncategorized-case1");
    assert_eq!(kind_of(&testcase), ExitKind::Okay);
}

#[test]
fn classification_is_idempotent() {
    let mut classifier = classifier();
    classifier.is_interesting(&ExitKind::Crash);
    let mut testcase = named_testcase();
    classifier.append_metadata(true, &mut testcase);
    let first_path = path_of(&testcase);
    let first_kind = kind_of(&testcase);
    classifier.append_metadata(true, &mut testcase);
    assert_eq!(path_of(&testcase), first_path);
    assert_eq!(kind_of(&testcase), first_kind);
}

#[test]
fn unnamed_testcase_gets_content_derived_name() {
    let mut classifier = classifier();
    classifier.is_interesting(&ExitKind::Crash);
    let mut testcase = Testcase::new(Vec::new());
    classifier.append_metadata(false, &mut testcase);
    assert_eq!(path_of(&testcase), "artifacts/pre-crash-cbf29ce484222325");
}

#[test]
fn generated_name_is_fnv1a_hex() {
    assert_eq!(generate_name(&Vec::new()), "cbf29ce484222325");
    assert_eq!(generate_name(&vec![0x61]), "af63dc4c8601ec8c");
}

#[test]
fn classifier_never_votes_for_retention() {
    let mut classifier = classifier();
    assert!(!classifier.is_interesting(&ExitKind::Crash));
    assert_eq!(classifier.name(), "crash-cause");
}
