use vstd::prelude::*;
use vstd::string::StringExecFns;
use std::collections::HashSet;
use crate::corpus::Testcase;
use crate::exit_kind::ExitKind;
use crate::naming::generate_name;
use crate::naming::spec_generate_name;
use crate::observers::UserFeatureObserver;
use crate::observers::FEATURE_SLOTS;
use crate::observers::UNIQUE_SLOTS;
use crate::options::ArtifactPrefix;

verus! {

broadcast use vstd::std_specs::hash::group_hash_axioms;

/// Feedback engine over the 16-slot user-feature vector.
///
/// Slots `0..8` are set-novelty slots: per slot, the set of every value
/// observed so far; a value not yet in its slot's set marks the execution
/// interesting. Slots `8..16` are growth slots: per slot, the running
/// maximum; a value strictly above its slot's maximum marks the execution
/// interesting and replaces the maximum. Sets and maxima only ever grow.
pub struct UserFeatureFeedback {
    unique_features: Vec<HashSet<u64>>,
    growth_features: Vec<u64>,
}

impl UserFeatureFeedback {
    /// One novelty set and one maximum per slot of its half of the vector.
    pub closed spec fn wf(&self) -> bool {
        &&& self.unique_features@.len() == UNIQUE_SLOTS
        &&& self.growth_features@.len() == UNIQUE_SLOTS
    }

    /// Values observed so far in set-novelty slot `i`.
    pub closed spec fn slot_set(&self, i: int) -> Set<u64> {
        self.unique_features@[i]@
    }

    /// Running maximum of growth slot `i` (feature index `8 + i`).
    pub closed spec fn slot_max(&self, i: int) -> u64 {
        self.growth_features@[i]
    }

    /// The novelty set of slot `i` after consuming `features`.
    pub open spec fn updated_slot_set(self, features: Seq<u64>, i: int) -> Set<u64> {
        self.slot_set(i).insert(features[i])
    }

    /// The running maximum of growth slot `i` after consuming `features`.
    pub open spec fn updated_slot_max(self, features: Seq<u64>, i: int) -> u64 {
        if features[UNIQUE_SLOTS + i] > self.slot_max(i) {
            features[UNIQUE_SLOTS + i]
        } else {
            self.slot_max(i)
        }
    }

    /// Some set-novelty slot carries a value never observed before.
    pub open spec fn some_unique_novel(self, features: Seq<u64>) -> bool {
        exists|i: int|
            0 <= i < UNIQUE_SLOTS && !self.slot_set(i).contains(features[i])
    }

    /// Some growth slot carries a value strictly above its stored maximum.
    pub open spec fn some_growth(self, features: Seq<u64>) -> bool {
        exists|i: int|
            0 <= i < UNIQUE_SLOTS && features[UNIQUE_SLOTS + i] > self.slot_max(i)
    }

    /// Fresh feedback: every novelty set empty, every maximum zero.
    pub fn new() -> (r: Self)
        ensures
            r.wf(),
            forall|i: int|
                0 <= i < UNIQUE_SLOTS ==> r.slot_set(i) == Set::<u64>::empty(),
            forall|i: int| 0 <= i < UNIQUE_SLOTS ==> r.slot_max(i) == 0u64,
    {
        let mut unique_features: Vec<HashSet<u64>> = Vec::new();
        for k in 0..UNIQUE_SLOTS
            invariant
                unique_features@.len() == k,
                forall|i: int|
                    0 <= i < k ==> #[trigger] unique_features@[i]@ == Set::<u64>::empty(),
        {
            unique_features.push(HashSet::new());
        }

        let mut growth_features: Vec<u64> = Vec::new();
        for k in 0..UNIQUE_SLOTS
            invariant
                growth_features@.len() == k,
                forall|i: int| 0 <= i < k ==> growth_features@[i] == 0u64,
        {
            growth_features.push(0u64);
        }

        UserFeatureFeedback { unique_features, growth_features }
    }

    /// Name under which the feedback is registered.
    pub fn name(&self) -> (r: &'static str)
        ensures
            r@ == "user-feature-feedback"@,
    {
        "user-feature-feedback"
    }

    /// Consume one execution's feature vector and decide interestingness.
    ///
    /// Every slot is evaluated even after interestingness is already
    /// settled, so every set and maximum stays fully up to date.
    pub fn is_interesting(&mut self, observer: &UserFeatureObserver) -> (r: bool)
        requires
            old(self).wf(),
            observer.wf(),
        ensures
            final(self).wf(),
            forall|i: int|
                0 <= i < UNIQUE_SLOTS ==> final(self).slot_set(i)
                    == old(self).updated_slot_set(observer@, i),
            forall|i: int|
                0 <= i < UNIQUE_SLOTS ==> final(self).slot_max(i)
                    == old(self).updated_slot_max(observer@, i),
            r == (old(self).some_unique_novel(observer@)
                || old(self).some_growth(observer@)),
    {
        let ghost pre = *self;
        let mut interesting = false;

        let mut i: usize = 0;
        while i < UNIQUE_SLOTS
            invariant
                pre.wf(),
                observer.wf(),
                0 <= i <= UNIQUE_SLOTS,
                self.unique_features@.len() == UNIQUE_SLOTS,
                self.growth_features@ == pre.growth_features@,
                forall|j: int|
                    0 <= j < i ==> #[trigger] self.unique_features@[j]@
                        == pre.updated_slot_set(observer@, j),
                forall|j: int|
                    i <= j < UNIQUE_SLOTS ==> self.unique_features@[j]
                        == pre.unique_features@[j],
                interesting == exists|j: int|
                    0 <= j < i && !pre.slot_set(j).contains(observer@[j]),
            decreases UNIQUE_SLOTS - i,
        {
            let feature = observer.feature(i);
            let slot = &mut self.unique_features[i];
            let novel = slot.insert(feature);
            proof {
                if novel {
                    assert(!pre.slot_set(i as int).contains(observer@[i as int]));
                }
            }
            interesting = novel || interesting;
            i = i + 1;
        }

        let mut k: usize = 0;
        while k < UNIQUE_SLOTS
            invariant
                pre.wf(),
                observer.wf(),
                0 <= k <= UNIQUE_SLOTS,
                self.unique_features@.len() == UNIQUE_SLOTS,
                self.growth_features@.len() == UNIQUE_SLOTS,
                forall|j: int|
                    0 <= j < UNIQUE_SLOTS ==> #[trigger] self.unique_features@[j]@
                        == pre.updated_slot_set(observer@, j),
                forall|j: int|
                    0 <= j < k ==> #[trigger] self.growth_features@[j]
                        == pre.updated_slot_max(observer@, j),
                forall|j: int|
                    k <= j < UNIQUE_SLOTS ==> self.growth_features@[j]
                        == pre.growth_features@[j],
                interesting == (pre.some_unique_novel(observer@) || exists|j: int|
                    0 <= j < k && observer@[UNIQUE_SLOTS + j] > pre.slot_max(j)),
            decreases UNIQUE_SLOTS - k,
        {
            let feature = observer.feature(UNIQUE_SLOTS + k);
            let current = self.growth_features[k];
            if feature > current {
                self.growth_features[k] = feature;
                interesting = true;
                proof {
                    assert(observer@[UNIQUE_SLOTS + k as int] > pre.slot_max(k as int));
                }
            }
            k = k + 1;
        }

        interesting
    }
}

/// Law: a feature vector whose slot-0 value was never observed before is
/// interesting, and slot 0's set afterwards contains that value.
pub proof fn lemma_unseen_unique_value_interesting(
    pre: UserFeatureFeedback,
    features: Seq<u64>,
    v: u64,
)
    requires
        pre.wf(),
        features.len() == FEATURE_SLOTS,
        features[0] == v,
        !pre.slot_set(0).contains(v),
    ensures
        pre.some_unique_novel(features),
        pre.updated_slot_set(features, 0).contains(v),
{
    assert(0 <= 0 < UNIQUE_SLOTS && !pre.slot_set(0).contains(features[0]));
}

/// Law: a feature vector whose slot-8 value does not exceed the stored
/// maximum contributes no interestingness for that slot, and the stored
/// maximum is unchanged by consuming it.
pub proof fn lemma_no_growth_without_exceeding(pre: UserFeatureFeedback, features: Seq<u64>)
    requires
        pre.wf(),
        features.len() == FEATURE_SLOTS,
        features[UNIQUE_SLOTS as int] <= pre.slot_max(0),
    ensures
        !(features[UNIQUE_SLOTS as int] > pre.slot_max(0)),
        pre.updated_slot_max(features, 0) == pre.slot_max(0),
{
}

/// Law: feedback state only grows. Consuming any feature vector leaves
/// every novelty set a superset of what it was and never lowers a
/// stored maximum.
pub proof fn lemma_feedback_state_grows(pre: UserFeatureFeedback, features: Seq<u64>)
    requires
        pre.wf(),
        features.len() == FEATURE_SLOTS,
    ensures
        forall|i: int|
            0 <= i < UNIQUE_SLOTS ==> pre.slot_set(i).subset_of(
                #[trigger] pre.updated_slot_set(features, i),
            ),
        forall|i: int|
            0 <= i < UNIQUE_SLOTS ==> #[trigger] pre.updated_slot_max(features, i)
                >= pre.slot_max(i),
{
}

/// Manually toggled latch honored as an unconditional interestingness
/// override: the mechanism by which "this execution crashed and must be
/// kept regardless of coverage novelty" is expressed.
#[derive(Debug)]
pub struct LibfuzzerKeepFeedback {
    keep: bool,
}

impl LibfuzzerKeepFeedback {
    /// Current value of the latch.
    pub closed spec fn keep_flag(&self) -> bool {
        self.keep
    }

    /// Fresh latch, not set.
    pub fn new() -> (r: Self)
        ensures
            !r.keep_flag(),
    {
        LibfuzzerKeepFeedback { keep: false }
    }

    /// Read the latch.
    pub fn keep(&self) -> (r: bool)
        ensures
            r == self.keep_flag(),
    {
        self.keep
    }

    /// Toggle the latch; an external decision such as a crash handler
    /// retaining the input sets it before the feedback is consulted.
    pub fn set_keep(&mut self, value: bool)
        ensures
            final(self).keep_flag() == value,
    {
        self.keep = value;
    }

    /// Name under which the feedback is registered.
    pub fn name(&self) -> (r: &'static str)
        ensures
            r@ == "libfuzzer-keep"@,
    {
        "libfuzzer-keep"
    }

    /// Interesting exactly when the latch is set.
    pub fn is_interesting(&self) -> (r: bool)
        ensures
            r == self.keep_flag(),
    {
        self.keep
    }
}

/// Crash-cause record attached to a retained testcase, recording the
/// final classified exit kind. Immutable once attached.
#[derive(Clone, Copy, Debug, PartialEq, Eq, Structural)]
pub struct LibfuzzerCrashCauseMetadata {
    kind: ExitKind,
}

impl LibfuzzerCrashCauseMetadata {
    /// The recorded cause.
    pub closed spec fn kind_spec(&self) -> ExitKind {
        self.kind
    }

    pub fn kind(&self) -> (r: ExitKind)
        ensures
            r == self.kind_spec(),
    {
        self.kind
    }
}

/// Post-hoc crash classifier: remembers the exit kind of the last
/// execution, and on retained testcases assigns a cause category and a
/// deterministically derived artifact path.
pub struct LibfuzzerCrashCauseFeedback {
    artifact_prefix: ArtifactPrefix,
    exit_kind: ExitKind,
}

/// Base name an artifact is filed under: the testcase's assigned
/// filename when there is one, else the content-derived generated name.
pub open spec fn spec_base_name(testcase: Testcase) -> Seq<char> {
    if testcase.has_filename() {
        testcase.filename_chars()
    } else {
        spec_generate_name(testcase.input_bytes())
    }
}

/// Category prefix of the classifier's decision table, first match wins:
/// a crash or timeout with the oom probe reporting true is out-of-memory;
/// then crash; then timeout; anything else is uncategorized.
pub open spec fn spec_category_prefix(kind: ExitKind, oom_probe: bool) -> Seq<char> {
    if (kind == ExitKind::Crash || kind == ExitKind::Timeout) && oom_probe {
        "oom"@
    } else if kind == ExitKind::Crash {
        "crash"@
    } else if kind == ExitKind::Timeout {
        "timeout"@
    } else {
        "uncategorized"@
    }
}

/// Cause recorded in the metadata for the same decision table.
pub open spec fn spec_classified_kind(kind: ExitKind, oom_probe: bool) -> ExitKind {
    if (kind == ExitKind::Crash || kind == ExitKind::Timeout) && oom_probe {
        ExitKind::Oom
    } else {
        kind
    }
}

impl LibfuzzerCrashCauseFeedback {
    /// The exit kind remembered from the last execution.
    pub closed spec fn exit_kind_spec(&self) -> ExitKind {
        self.exit_kind
    }

    /// The configured artifact directory.
    pub closed spec fn dir_chars(&self) -> Seq<char> {
        self.artifact_prefix.dir_chars()
    }

    /// The configured global filename prefix.
    pub closed spec fn filename_prefix_chars(&self) -> Seq<char> {
        self.artifact_prefix.filename_prefix_chars()
    }

    /// Full artifact path for a category prefix and a testcase:
    /// directory, then global prefix, category prefix and base name.
    pub open spec fn spec_artifact_path(self, category: Seq<char>, testcase: Testcase) -> Seq<
        char,
    > {
        self.dir_chars() + "/"@ + self.filename_prefix_chars() + category + "-"@
            + spec_base_name(testcase)
    }

    pub fn new(artifact_prefix: ArtifactPrefix) -> (r: Self)
        ensures
            r.exit_kind_spec() == ExitKind::Okay,
            r.dir_chars() == artifact_prefix.dir_chars(),
            r.filename_prefix_chars() == artifact_prefix.filename_prefix_chars(),
    {
        LibfuzzerCrashCauseFeedback { artifact_prefix, exit_kind: ExitKind::Okay }
    }

    /// Name under which the feedback is registered.
    pub fn name(&self) -> (r: &'static str)
        ensures
            r@ == "crash-cause"@,
    {
        "crash-cause"
    }

    /// Remember the execution's exit kind; the classifier itself never
    /// votes for retention.
    pub fn is_interesting(&mut self, exit_kind: &ExitKind) -> (r: bool)
        ensures
            final(self).exit_kind_spec() == *exit_kind,
            final(self).dir_chars() == old(self).dir_chars(),
            final(self).filename_prefix_chars() == old(self).filename_prefix_chars(),
            r == false,
    {
        self.exit_kind = *exit_kind;
        false
    }

    /// Derive and record the artifact path for a category prefix.
    fn set_filename(&self, prefix: &str, testcase: &mut Testcase)
        ensures
            final(testcase).has_file_path(),
            final(testcase).file_path_chars() == self.spec_artifact_path(
                prefix@,
                *old(testcase),
            ),
            final(testcase).input_bytes() == old(testcase).input_bytes(),
            final(testcase).has_filename() == old(testcase).has_filename(),
            old(testcase).has_filename() ==> final(testcase).filename_chars()
                == old(testcase).filename_chars(),
            final(testcase).metadata_opt() == old(testcase).metadata_opt(),
    {
        let base: String = match testcase.filename() {
            Some(filename) => filename.clone(),
            None => generate_name(testcase.input()),
        };
        let mut path = self.artifact_prefix.dir().clone();
        path.append("/");
        path.append(self.artifact_prefix.filename_prefix().as_str());
        path.append(prefix);
        path.append("-");
        path.append(base.as_str());
        testcase.set_file_path(path);
    }

    /// Classify the retained testcase: derive the artifact path from the
    /// remembered exit kind and the oom probe, and attach the cause
    /// metadata. A pure, idempotent function of its inputs.
    pub fn append_metadata(&self, oom_probe: bool, testcase: &mut Testcase)
        ensures
            final(testcase).has_file_path(),
            final(testcase).file_path_chars() == self.spec_artifact_path(
                spec_category_prefix(self.exit_kind_spec(), oom_probe),
                *old(testcase),
            ),
            final(testcase).metadata_opt() matches Some(m) && m.kind_spec()
                == spec_classified_kind(self.exit_kind_spec(), oom_probe),
            final(testcase).input_bytes() == old(testcase).input_bytes(),
            final(testcase).has_filename() == old(testcase).has_filename(),
            old(testcase).has_filename() ==> final(testcase).filename_chars()
                == old(testcase).filename_chars(),
    {
        let crash_or_timeout = matches!(self.exit_kind, ExitKind::Crash | ExitKind::Timeout);
        if crash_or_timeout && oom_probe {
            self.set_filename("oom", testcase);
            testcase.add_metadata(LibfuzzerCrashCauseMetadata { kind: ExitKind::Oom });
            return ;
        }
        match self.exit_kind {
            ExitKind::Crash => {
                self.set_filename("crash", testcase);
                testcase.add_metadata(LibfuzzerCrashCauseMetadata { kind: ExitKind::Crash });
            },
            ExitKind::Timeout => {
                self.set_filename("timeout", testcase);
                testcase.add_metadata(LibfuzzerCrashCauseMetadata { kind: ExitKind::Timeout });
            },
            _ => {
                self.set_filename("uncategorized", testcase);
                testcase.add_metadata(LibfuzzerCrashCauseMetadata { kind: self.exit_kind });
            },
        }
    }
}

/// Law: classification is idempotent. Classifying leaves the input and
/// the assigned filename untouched, so a second classification of the
/// same testcase with the same exit kind and probe derives the same base
/// name, hence the same artifact path, and records the same metadata.
pub proof fn lemma_classification_idempotent(
    fb: LibfuzzerCrashCauseFeedback,
    first: Testcase,
    second: Testcase,
)
    requires
        second.input_bytes() == first.input_bytes(),
        second.has_filename() == first.has_filename(),
        first.has_filename() ==> second.filename_chars() == first.filename_chars(),
    ensures
        spec_base_name(second) == spec_base_name(first),
        forall|category: Seq<char>| #[trigger] fb.spec_artifact_path(category, second)
            == fb.spec_artifact_path(category, first),
{
}

} // verus!
