use fuzzcore::feedbacks::LibfuzzerKeepFeedback;
use fuzzcore::feedbacks::UserFeatureFeedback;
use fuzzcore::observers::UserFeatureObserver;

fn observer_with(features: [u64; 16]) -> UserFeatureObserver {
    let mut observer = UserFeatureObserver::new();
    for (i, value) in features.iter().enumerate() {
        observer.set_feature(i, *value);
    }
    observer
}

#[test]
fn unseen_unique_value_is_interesting() {
    let mut feedback = UserFeatureFeedback::new();
    let mut features = [0u64; 16];
    features[0] = 7;
    assert!(feedback.is_interesting(&observer_with(features)));
    // The same vector again: slot 0's set now contains 7, every other
    // slot saw its value already, no growth slot grew.
    assert!(!feedback.is_interesting(&observer_with(features)));
}

#[test]
fn growth_value_not_exceeding_maximum_is_not_interesting() {
    let mut feedback = UserFeatureFeedback::new();
    let mut features = [0u64; 16];
    features[8] = 5;
    assert!(feedback.is_interesting(&observer_with(features)));
    // Equal to the stored maximum: nothing grows.
    assert!(!feedback.is_interesting(&observer_with(features)));
    // Smaller than the stored maximum: nothing grows, maximum kept.
    features[8] = 4;
    assert!(!feedback.is_interesting(&observer_with(features)));
    // Strictly above the kept maximum of 5.
    features[8] = 6;
    assert!(feedback.is_interesting(&observer_with(features)));
}

#[test]
fn end_to_end_two_calls_both_interesting() {
    let mut feedback = UserFeatureFeedback::new();
    let mut first = [0u64; 16];
    first[0] = 1;
    first[8] = 5;
    // Call 1: slot 0 novel, slot 8 grows from 0 to 5.
    assert!(feedback.is_interesting(&observer_with(first)));
    let mut second = [0u64; 16];
    second[0] = 1;
    second[8] = 10;
    // Call 2: slot 0 not novel, slot 8 grows from 5 to 10.
    assert!(feedback.is_interesting(&observer_with(second)));
    // The same vector once more reveals nothing new.
    assert!(!feedback.is_interesting(&observer_with(second)));
}

#[test]
fn all_slots_updated_even_after_early_novelty() {
    let mut feedback = UserFeatureFeedback::new();
    let mut features = [0u64; 16];
    features[0] = 1;
    features[7] = 9;
    features[15] = 3;
    assert!(feedback.is_interesting(&observer_with(features)));
    // Had slot 7 or 15 been skipped after slot 0 settled the decision,
    // one of these would report novelty or growth again.
    assert!(!feedback.is_interesting(&observer_with(features)));
}

#[test]
fn keep_latch_overrides_interestingness() {
    let mut keep = LibfuzzerKeepFeedback::new();
    assert!(!keep.keep());
    assert!(!keep.is_interesting());
    keep.set_keep(true);
    assert!(keep.keep());
    assert!(keep.is_interesting());
    keep.set_keep(false);
    assert!(!keep.is_interesting());
}

#[test]
fn feedback_names() {
    let feedback = UserFeatureFeedback::new();
    assert_eq!(feedback.name(), "user-feature-feedback");
    let keep = LibfuzzerKeepFeedback::new();
    assert_eq!(keep.name(), "libfuzzer-keep");
    let observer = UserFeatureObserver::new();
    assert_eq!(observer.name(), "user-feature-observer");
}
