use vstd::prelude::*;
use vstd::bytes::lemma_auto_spec_u64_to_from_le_bytes;
use vstd::bytes::spec_u64_from_le_bytes;
use vstd::bytes::spec_u64_to_le_bytes;
use vstd::bytes::u64_from_le_bytes;
use vstd::bytes::u64_to_le_bytes;
use vstd::slice::slice_subrange;
use crate::exit_kind::ExitKind;
use crate::observers::UserFeatureObserver;
use crate::observers::FEATURE_SLOTS;

verus! {

/// Size of one observer record in the shared-memory region: a one-byte
/// exit-kind tag followed by eight little-endian bytes per feature slot.
pub const OBSERVER_RECORD_LEN: usize = 129;

/// Byte tag standing for an exit kind inside the region.
pub open spec fn spec_exit_kind_tag(kind: ExitKind) -> u8 {
    match kind {
        ExitKind::Okay => 0u8,
        ExitKind::Crash => 1u8,
        ExitKind::Timeout => 2u8,
        ExitKind::Oom => 3u8,
    }
}

/// Exit kind read back from a tag byte; an unknown tag decodes to
/// nothing.
pub open spec fn spec_tag_exit_kind(tag: u8) -> Option<ExitKind> {
    if tag == 0 {
        Some(ExitKind::Okay)
    } else if tag == 1 {
        Some(ExitKind::Crash)
    } else if tag == 2 {
        Some(ExitKind::Timeout)
    } else if tag == 3 {
        Some(ExitKind::Oom)
    } else {
        None
    }
}

/// A record is the encoding of a feature vector and an exit kind: the
/// tag byte, then slot `i`'s value at bytes `1 + 8 * i` onward.
pub open spec fn spec_is_record(region: Seq<u8>, features: Seq<u64>, kind: ExitKind) -> bool {
    &&& region.len() == OBSERVER_RECORD_LEN
    &&& features.len() == FEATURE_SLOTS
    &&& region[0] == spec_exit_kind_tag(kind)
    &&& forall|i: int|
        0 <= i < FEATURE_SLOTS ==> region.subrange(1 + 8 * i, 9 + 8 * i)
            == spec_u64_to_le_bytes(features[i])
}

/// Law: the serialize-on-child-exit / deserialize-on-parent-resume
/// contract is lossless — a region holding the record of a feature
/// vector and an exit kind reads back as exactly that vector and kind.
pub proof fn lemma_record_round_trip(region: Seq<u8>, features: Seq<u64>, kind: ExitKind)
    requires
        spec_is_record(region, features, kind),
    ensures
        spec_tag_exit_kind(region[0]) == Some(kind),
        forall|i: int|
            0 <= i < FEATURE_SLOTS ==> spec_u64_from_le_bytes(
                region.subrange(1 + 8 * i, 9 + 8 * i),
            ) == features[i],
{
    lemma_auto_spec_u64_to_from_le_bytes();
}

/// Serialize the observer record and the raw exit kind into a fresh
/// region image; in the fork-isolated strategy the child writes this
/// before it terminates.
pub fn encode_record(observers: &UserFeatureObserver, kind: ExitKind) -> (r: Vec<u8>)
    requires
        observers.wf(),
    ensures
        spec_is_record(r@, observers@, kind),
{
    let mut region: Vec<u8> = Vec::new();
    let tag: u8 = match kind {
        ExitKind::Okay => 0u8,
        ExitKind::Crash => 1u8,
        ExitKind::Timeout => 2u8,
        ExitKind::Oom => 3u8,
    };
    region.push(tag);
    let mut i: usize = 0;
    while i < FEATURE_SLOTS
        invariant
            observers.wf(),
            i <= FEATURE_SLOTS,
            region@.len() == 1 + 8 * i,
            region@[0] == spec_exit_kind_tag(kind),
            forall|j: int|
                0 <= j < i ==> region@.subrange(1 + 8 * j, 9 + 8 * j)
                    == spec_u64_to_le_bytes(observers@[j]),
        decreases FEATURE_SLOTS - i,
    {
        let ghost prev = region@;
        let mut bytes = u64_to_le_bytes(observers.feature(i));
        region.append(&mut bytes);
        proof {
            assert forall|j: int| 0 <= j < i implies region@.subrange(1 + 8 * j, 9 + 8 * j)
                == spec_u64_to_le_bytes(observers@[j]) by {
                assert(region@.subrange(1 + 8 * j, 9 + 8 * j) =~= prev.subrange(
                    1 + 8 * j,
                    9 + 8 * j,
                ));
            }
            assert(region@.subrange(1 + 8 * i, 9 + 8 * i) =~= spec_u64_to_le_bytes(
                observers@[i as int],
            ));
        }
        i = i + 1;
    }
    region
}

/// Deserialize one record from the region; in the fork-isolated strategy
/// the parent reads this after the child terminated. A region of the
/// wrong size or with an unknown tag yields nothing.
pub fn decode_record(region: &Vec<u8>) -> (r: Option<(Vec<u64>, ExitKind)>)
    ensures
        region@.len() == OBSERVER_RECORD_LEN && spec_tag_exit_kind(region@[0]) is Some
            ==> (r matches Some((features, kind)) && features@.len() == FEATURE_SLOTS
            && Some(kind) == spec_tag_exit_kind(region@[0]) && forall|i: int|
            0 <= i < FEATURE_SLOTS ==> features@[i] == spec_u64_from_le_bytes(
                region@.subrange(1 + 8 * i, 9 + 8 * i),
            )),
        region@.len() != OBSERVER_RECORD_LEN || spec_tag_exit_kind(region@[0]) is None
            ==> r is None,
{
    if region.len() != OBSERVER_RECORD_LEN {
        return None;
    }
    let tag = region[0];
    let kind = if tag == 0 {
        ExitKind::Okay
    } else if tag == 1 {
        ExitKind::Crash
    } else if tag == 2 {
        ExitKind::Timeout
    } else if tag == 3 {
        ExitKind::Oom
    } else {
        return None;
    };
    let mut features: Vec<u64> = Vec::new();
    let mut i: usize = 0;
    while i < FEATURE_SLOTS
        invariant
            region@.len() == OBSERVER_RECORD_LEN,
            i <= FEATURE_SLOTS,
            features@.len() == i,
            forall|j: int|
                0 <= j < i ==> features@[j] == spec_u64_from_le_bytes(
                    region@.subrange(1 + 8 * j, 9 + 8 * j),
                ),
        decreases FEATURE_SLOTS - i,
    {
        let slot_bytes = slice_subrange(region.as_slice(), 1 + 8 * i, 9 + 8 * i);
        let value = u64_from_le_bytes(slot_bytes);
        features.push(value);
        i = i + 1;
    }
    Some((features, kind))
}

} // verus!
