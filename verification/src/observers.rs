use vstd::prelude::*;

verus! {

/// Number of scalar slots in the user-feature vector.
pub const FEATURE_SLOTS: usize = 16;

/// Slots below this index are set-novelty slots; the rest are growth slots.
pub const UNIQUE_SLOTS: usize = 8;

/// Per-execution measurement record holding the 16-slot user-feature
/// vector: an ordered sequence of `u64` scalars written by the harness
/// during one execution and read afterwards by the feedback engine.
pub struct UserFeatureObserver {
    user_features: Vec<u64>,
}

impl View for UserFeatureObserver {
    type V = Seq<u64>;

    closed spec fn view(&self) -> Seq<u64> {
        self.user_features@
    }
}

impl UserFeatureObserver {
    /// A well-formed observer holds exactly one value per slot.
    pub open spec fn wf(&self) -> bool {
        self@.len() == FEATURE_SLOTS
    }

    /// Fresh observer with every slot zero.
    pub fn new() -> (r: Self)
        ensures
            r.wf(),
            forall|i: int| 0 <= i < FEATURE_SLOTS ==> r@[i] == 0u64,
    {
        let mut user_features: Vec<u64> = Vec::new();
        for k in 0..FEATURE_SLOTS
            invariant
                user_features@.len() == k,
                forall|i: int| 0 <= i < k ==> user_features@[i] == 0u64,
        {
            user_features.push(0u64);
        }
        UserFeatureObserver { user_features }
    }

    /// Name under which the observer is looked up in the observer set.
    pub fn name(&self) -> (r: &'static str)
        ensures
            r@ == "user-feature-observer"@,
    {
        "user-feature-observer"
    }

    /// Read one slot.
    pub fn feature(&self, i: usize) -> (r: u64)
        requires
            self.wf(),
            i < FEATURE_SLOTS,
        ensures
            r == self@[i as int],
    {
        self.user_features[i]
    }

    /// Write one slot; all other slots keep their value.
    pub fn set_feature(&mut self, i: usize, value: u64)
        requires
            old(self).wf(),
            i < FEATURE_SLOTS,
        ensures
            final(self).wf(),
            final(self)@ == old(self)@.update(i as int, value),
    {
        self.user_features[i] = value;
    }

    /// The whole feature vector, slot by slot.
    pub fn user_features(&self) -> (r: &Vec<u64>)
        ensures
            r@ == self@,
    {
        &self.user_features
    }
}

} // verus!
