use fuzzcore::exit_kind::ExitKind;
use fuzzcore::observers::UserFeatureObserver;
use fuzzcore::shmem::decode_record;
use fuzzcore::shmem::encode_record;
use fuzzcore::shmem::OBSERVER_RECORD_LEN;

#[test]
fn record_round_trip_is_lossless() {
    let mut observers = UserFeatureObserver::new();
    for i in 0..16 {
        observers.set_feature(i, (i as u64) * 1000 + 17);
    }
    let region = encode_record(&observers, ExitKind::Crash);
    assert_eq!(region.len(), OBSERVER_RECORD_LEN);
    let (features, kind) = decode_record(&region).unwrap();
    assert_eq!(kind, ExitKind::Crash);
    for i in 0..16 {
        assert_eq!(features[i], (i as u64) * 1000 + 17);
    }
}

#[test]
fn every_exit_kind_tag_round_trips() {
    let observers = UserFeatureObserver::new();
    for kind in [ExitKind::Okay, ExitKind::Crash, ExitKind::Timeout, ExitKind::Oom] {
        let region = encode_record(&observers, kind);
        let (_, decoded) = decode_record(&region).unwrap();
        assert_eq!(decoded, kind);
    }
}

#[test]
fn decode_rejects_wrong_length() {
    assert!(decode_record(&vec![0u8; 10]).is_none());
    assert!(decode_record(&Vec::new()).is_none());
}

#[test]
fn decode_rejects_unknown_tag() {
    let mut region = vec![0u8; OBSERVER_RECORD_LEN];
    region[0] = 9;
    assert!(decode_record(&region).is_none());
}
