use jovian_cycles::models::{
    KeyData, KeysMap, PracticeSessionData, Receipt, SessionError, TimeCode,
};

fn entry(name: &str, time: i64) -> TimeCode {
    (name.to_string(), time)
}

#[test]
fn new_session_has_twelve_unpractised_keys() {
    let data = PracticeSessionData::new();
    assert_eq!(data.all_keys_map.0.len(), 12);
    for (index, key) in data.all_keys_map.0.iter().enumerate() {
        assert_eq!(*key, KeyData { nid: index, repetitions: 0, weight: 100 });
    }
    assert!(data.practice_session_history.is_none());
    assert!(data.current_key_data.is_none());
    assert!(data.start_timestamp.is_none());
    assert!(data.receipt.is_none());
    assert!(data.is_well_formed());
}

#[test]
fn fresh_catalog_is_the_same_every_time() {
    assert_eq!(KeysMap::new().0, KeysMap::new().0);
    assert_eq!(KeysMap::new().0, PracticeSessionData::new().all_keys_map.0);
}

#[test]
fn select_key_copies_the_catalog_entry() {
    let mut data = PracticeSessionData::new();
    data.select_key(0);
    assert_eq!(data.current_key_data, Some(KeyData { nid: 0, repetitions: 0, weight: 100 }));
    data.select_key(11);
    assert_eq!(data.current_key_data, Some(KeyData { nid: 11, repetitions: 0, weight: 100 }));
    assert_eq!(data.all_keys_map.0, KeysMap::new().0);
    assert!(data.is_well_formed());
}

#[test]
fn increment_without_current_key_is_an_error() {
    let data = PracticeSessionData::new();
    let result = data.increment_key_repetition();
    assert_eq!(result.err(), Some(SessionError::NoCurrentKey));
}

#[test]
fn decrement_without_current_key_is_an_error() {
    let data = PracticeSessionData::new();
    let result = data.decrement_key_repetition();
    assert_eq!(result.err(), Some(SessionError::NoCurrentKey));
}

#[test]
fn failed_delta_leaves_the_callers_copy_untouched() {
    let mut data = PracticeSessionData::new();
    data.set_timestamp_at("Working".to_string(), 7);
    data.push_timestamp();
    let result = data.clone().apply_repetition_delta(1);
    assert_eq!(result.err(), Some(SessionError::NoCurrentKey));
    assert_eq!(data.all_keys_map.0, KeysMap::new().0);
    assert!(data.current_key_data.is_none());
    assert_eq!(data.practice_session_history, Some(vec![entry("Working", 7)]));
}

#[test]
fn increment_updates_snapshot_and_catalog() {
    let mut data = PracticeSessionData::new();
    data.select_key(3);
    let data = data.increment_key_repetition().expect("a key is current");
    let counted = KeyData { nid: 3, repetitions: 1, weight: 100 };
    assert_eq!(data.current_key_data, Some(counted));
    assert_eq!(data.all_keys_map.0[3], counted);
    for (index, key) in data.all_keys_map.0.iter().enumerate() {
        if index != 3 {
            assert_eq!(*key, KeyData { nid: index, repetitions: 0, weight: 100 });
        }
    }
    assert!(data.is_well_formed());
}

#[test]
fn increment_then_decrement_restores_the_count() {
    let mut data = PracticeSessionData::new();
    data.select_key(5);
    let before = data.all_keys_map.0.clone();
    let data = data.increment_key_repetition().expect("a key is current");
    assert_eq!(data.all_keys_map.0[5].repetitions, 1);
    let data = data.decrement_key_repetition().expect("a key is current");
    assert_eq!(data.all_keys_map.0, before);
    assert_eq!(data.current_key_data, Some(KeyData { nid: 5, repetitions: 0, weight: 100 }));
}

#[test]
fn repetitions_may_go_below_zero() {
    let mut data = PracticeSessionData::new();
    data.select_key(9);
    let data = data.decrement_key_repetition().expect("a key is current");
    let data = data.decrement_key_repetition().expect("a key is current");
    assert_eq!(data.current_key_data, Some(KeyData { nid: 9, repetitions: -2, weight: 100 }));
    assert_eq!(data.all_keys_map.0[9].repetitions, -2);
}

#[test]
fn delta_of_any_size_is_applied() {
    let mut data = PracticeSessionData::new();
    data.select_key(2);
    let data = data.apply_repetition_delta(40).expect("a key is current");
    let data = data.apply_repetition_delta(-15).expect("a key is current");
    assert_eq!(data.all_keys_map.0[2].repetitions, 25);
    assert_eq!(data.current_key_data.expect("a key is current").repetitions, 25);
}

#[test]
fn counts_follow_the_current_key() {
    let mut data = PracticeSessionData::new();
    data.select_key(1);
    let mut data = data.increment_key_repetition().expect("a key is current");
    data.select_key(2);
    let mut data = data.increment_key_repetition().expect("a key is current");
    data.select_key(1);
    let data = data.increment_key_repetition().expect("a key is current");
    assert_eq!(data.all_keys_map.0[1].repetitions, 2);
    assert_eq!(data.all_keys_map.0[2].repetitions, 1);
    assert_eq!(data.current_key_data, Some(KeyData { nid: 1, repetitions: 2, weight: 100 }));
}

#[test]
fn can_apply_tells_when_the_counter_is_full() {
    let mut data = PracticeSessionData::new();
    assert!(data.can_apply(1));
    assert!(data.can_apply(i32::MIN));
    data.all_keys_map.0[6].repetitions = i32::MAX;
    data.select_key(6);
    assert!(!data.can_apply(1));
    assert!(data.can_apply(0));
    assert!(data.can_apply(-1));
    assert!(data.can_apply(i32::MIN));
    data.all_keys_map.0[7].repetitions = i32::MIN;
    data.select_key(7);
    assert!(data.can_apply(1));
    assert!(!data.can_apply(-1));
    assert!(data.can_apply(i32::MAX));
    data.select_key(0);
    assert!(data.can_apply(i32::MAX));
    assert!(data.can_apply(i32::MIN));
    assert!(data.can_apply(-1));
}

#[test]
fn counter_can_reach_its_limits() {
    let mut data = PracticeSessionData::new();
    data.all_keys_map.0[6].repetitions = i32::MAX - 1;
    data.select_key(6);
    let data = data.increment_key_repetition().expect("a key is current");
    assert_eq!(data.all_keys_map.0[6].repetitions, i32::MAX);
    assert!(!data.can_apply(1));
}

#[test]
fn well_formedness_is_checked() {
    let mut short = PracticeSessionData::new();
    short.all_keys_map.0.pop();
    assert!(!short.is_well_formed());

    let mut long = PracticeSessionData::new();
    long.all_keys_map.0.push(KeyData { nid: 12, repetitions: 0, weight: 100 });
    assert!(!long.is_well_formed());

    let mut shuffled = PracticeSessionData::new();
    shuffled.all_keys_map.0.swap(2, 3);
    assert!(!shuffled.is_well_formed());

    let mut stray = PracticeSessionData::new();
    stray.current_key_data = Some(KeyData { nid: 12, repetitions: 0, weight: 100 });
    assert!(!stray.is_well_formed());

    let mut stale = PracticeSessionData::new();
    stale.current_key_data = Some(KeyData { nid: 4, repetitions: 3, weight: 100 });
    assert!(!stale.is_well_formed());

    let mut good = PracticeSessionData::new();
    good.all_keys_map.0[4].repetitions = 3;
    good.current_key_data = Some(KeyData { nid: 4, repetitions: 3, weight: 100 });
    assert!(good.is_well_formed());
}

#[test]
fn marker_is_set_and_replaced() {
    let mut data = PracticeSessionData::new();
    data.set_timestamp_at("Working".to_string(), 1_700_000_000);
    assert_eq!(data.start_timestamp, Some(entry("Working", 1_700_000_000)));
    assert!(data.practice_session_history.is_none());
    data.set_timestamp_at("Resting".to_string(), -5);
    assert_eq!(data.start_timestamp, Some(entry("Resting", -5)));
    assert!(data.practice_session_history.is_none());
}

#[test]
fn marker_takes_the_current_time() {
    let before = std::time::SystemTime::now()
        .duration_since(std::time::UNIX_EPOCH)
        .expect("a clock after the epoch")
        .as_secs() as i64;
    let mut data = PracticeSessionData::new();
    data.set_timestamp("Resting".to_string());
    let after = std::time::SystemTime::now()
        .duration_since(std::time::UNIX_EPOCH)
        .expect("a clock after the epoch")
        .as_secs() as i64;
    let marker = data.start_timestamp.expect("a marker");
    assert_eq!(marker.0, "Resting");
    assert!(before <= marker.1 && marker.1 <= after);
    assert!(data.practice_session_history.is_none());
}

#[test]
fn push_without_marker_does_nothing() {
    let mut data = PracticeSessionData::new();
    data.push_timestamp();
    assert!(data.practice_session_history.is_none());
    assert!(data.start_timestamp.is_none());
}

#[test]
fn first_push_starts_the_history() {
    let mut data = PracticeSessionData::new();
    data.set_timestamp_at("Requesting New Key".to_string(), 10);
    data.push_timestamp();
    assert_eq!(data.practice_session_history, Some(vec![entry("Requesting New Key", 10)]));
    assert_eq!(data.start_timestamp, Some(entry("Requesting New Key", 10)));
}

#[test]
fn later_pushes_append_at_the_tail() {
    let mut data = PracticeSessionData::new();
    data.set_timestamp_at("Requesting New Key".to_string(), 10);
    data.push_timestamp();
    data.set_timestamp_at("Working".to_string(), 12);
    data.push_timestamp();
    data.push_timestamp();
    assert_eq!(
        data.practice_session_history,
        Some(vec![
            entry("Requesting New Key", 10),
            entry("Working", 12),
            entry("Working", 12),
        ])
    );
}

#[test]
fn drop_last_timestamp_removes_the_newest_entry() {
    let mut data = PracticeSessionData::new();
    data.drop_last_timestamp();
    assert!(data.practice_session_history.is_none());

    data.set_timestamp_at("Requesting New Key".to_string(), 10);
    data.push_timestamp();
    data.set_timestamp_at("Working".to_string(), 12);
    data.push_timestamp();
    data.drop_last_timestamp();
    assert_eq!(data.practice_session_history, Some(vec![entry("Requesting New Key", 10)]));
    data.drop_last_timestamp();
    assert_eq!(data.practice_session_history, Some(Vec::new()));
    data.drop_last_timestamp();
    assert_eq!(data.practice_session_history, Some(Vec::new()));
    assert_eq!(data.start_timestamp, Some(entry("Working", 12)));
}

#[test]
fn lookback_reads_the_entry_two_before_the_end() {
    let mut data = PracticeSessionData::new();
    assert!(!data.follows_key_request());
    assert!(!data.ends_with_key_request());

    data.set_timestamp_at("Requesting New Key".to_string(), 1);
    data.push_timestamp();
    assert!(!data.follows_key_request());
    assert!(data.ends_with_key_request());

    data.set_timestamp_at("Working".to_string(), 2);
    data.push_timestamp();
    assert!(data.follows_key_request());
    assert!(!data.ends_with_key_request());

    data.set_timestamp_at("Resting".to_string(), 3);
    data.push_timestamp();
    assert!(!data.follows_key_request());

    data.set_timestamp_at("Working".to_string(), 4);
    data.push_timestamp();
    assert!(!data.follows_key_request());

    data.practice_session_history =
        Some(vec![entry("requesting new key", 1), entry("Working", 2)]);
    assert!(!data.follows_key_request());
    data.practice_session_history = Some(Vec::new());
    assert!(!data.follows_key_request());
    assert!(!data.ends_with_key_request());
}

#[test]
fn receipt_copies_catalog_and_history() {
    let mut data = PracticeSessionData::new();
    let receipt: Receipt = data.construct_receipt();
    assert_eq!(receipt.key_data_archive.expect("the key archive").0, KeysMap::new().0);
    assert!(receipt.time_stamp_archive.is_none());

    data.select_key(8);
    let mut data = data.increment_key_repetition().expect("a key is current");
    data.set_timestamp_at("Working".to_string(), 99);
    data.push_timestamp();
    let receipt = data.construct_receipt();
    let keys = receipt.key_data_archive.expect("the key archive");
    assert_eq!(keys.0, data.all_keys_map.0);
    assert_eq!(keys.0[8].repetitions, 1);
    assert_eq!(receipt.time_stamp_archive, Some(vec![entry("Working", 99)]));
    assert!(data.receipt.is_none());
}

#[test]
fn receipt_does_not_follow_later_changes() {
    let mut data = PracticeSessionData::new();
    data.select_key(8);
    let mut data = data.increment_key_repetition().expect("a key is current");
    data.set_timestamp_at("Working".to_string(), 99);
    data.push_timestamp();
    let receipt = data.construct_receipt();

    let mut data = data.increment_key_repetition().expect("a key is current");
    data.set_timestamp_at("Resting".to_string(), 100);
    data.push_timestamp();
    assert_eq!(data.all_keys_map.0[8].repetitions, 2);

    let keys = receipt.key_data_archive.expect("the key archive");
    assert_eq!(keys.0[8].repetitions, 1);
    assert_eq!(receipt.time_stamp_archive, Some(vec![entry("Working", 99)]));
}

#[test]
fn reset_keeps_only_the_receipt() {
    let mut data = PracticeSessionData::new();
    data.select_key(8);
    let mut data = data.increment_key_repetition().expect("a key is current");
    data.set_timestamp_at("Finishing".to_string(), 99);
    data.push_timestamp();
    data.receipt = Some(data.construct_receipt());

    let fresh = data.reset();
    assert_eq!(fresh.all_keys_map.0, KeysMap::new().0);
    assert!(fresh.practice_session_history.is_none());
    assert!(fresh.current_key_data.is_none());
    assert!(fresh.start_timestamp.is_none());
    let receipt = fresh.receipt.clone().expect("a receipt");
    assert_eq!(receipt.key_data_archive.expect("the key archive").0[8].repetitions, 1);
    assert_eq!(receipt.time_stamp_archive, Some(vec![entry("Finishing", 99)]));
    assert!(fresh.is_well_formed());

    let empty = PracticeSessionData::new().reset();
    assert!(empty.receipt.is_none());
}

#[test]
fn clones_are_equal_and_independent() {
    let mut data = PracticeSessionData::new();
    data.select_key(2);
    data.set_timestamp_at("Working".to_string(), 5);
    data.push_timestamp();
    data.receipt = Some(data.construct_receipt());
    let copy = data.clone();
    let data = data.increment_key_repetition().expect("a key is current");

    assert_eq!(copy.all_keys_map.0, KeysMap::new().0);
    assert_eq!(copy.current_key_data, Some(KeyData { nid: 2, repetitions: 0, weight: 100 }));
    assert_eq!(copy.practice_session_history, Some(vec![entry("Working", 5)]));
    assert_eq!(copy.start_timestamp, Some(entry("Working", 5)));
    let receipt = copy.receipt.expect("a receipt");
    assert_eq!(receipt.time_stamp_archive, Some(vec![entry("Working", 5)]));
    assert_eq!(receipt.key_data_archive.expect("the key archive").0, KeysMap::new().0);
    assert_eq!(data.all_keys_map.0[2].repetitions, 1);
}
