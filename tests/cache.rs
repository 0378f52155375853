use phira_monitor::cache::{acquire_decision, bin_path, bin_tmp_path, decide, meta_contents, meta_path, CacheLookup};

#[test]
fn cache_file_layout() {
    assert_eq!(meta_path("/var/cache", "42"), "/var/cache/42.meta");
    assert_eq!(bin_path("/var/cache", "42"), "/var/cache/42.bin");
    assert_eq!(bin_tmp_path("/var/cache", "42"), "/var/cache/42.bin.tmp");
    assert_eq!(bin_path("cache/", "test"), "cache/test.bin");
}

#[test]
fn hit_only_with_same_stamp_and_binary() {
    assert_eq!(decide(Some("2024-01-01"), true, "2024-01-01"), CacheLookup::Hit);
    assert_eq!(decide(Some("2024-01-01"), false, "2024-01-01"), CacheLookup::Miss);
    assert_eq!(decide(Some("2023-12-31"), true, "2024-01-01"), CacheLookup::Miss);
    assert_eq!(decide(None, true, "2024-01-01"), CacheLookup::Miss);
}

#[test]
fn cache_concurrency_followers_hit() {
    // The first holder of the lock finds nothing and downloads; the
    // followers take the lock after it installed the chart and rewrote
    // the meta, and so read from disk.
    let first = decide(None, false, "stamp-7");
    assert_eq!(first, CacheLookup::Miss);
    let second = decide(Some("stamp-7"), true, "stamp-7");
    let third = decide(Some("stamp-7"), true, "stamp-7");
    assert_eq!(second, CacheLookup::Hit);
    assert_eq!(third, CacheLookup::Hit);
}

#[test]
fn meta_file_round_trip_decides_hit() {
    let meta = meta_contents("2025-03-04T05:06:07Z");
    assert_eq!(meta, br#"{"chart_updated":"2025-03-04T05:06:07Z"}"#.to_vec());
    assert_eq!(acquire_decision(Some(&meta), true, "2025-03-04T05:06:07Z"), CacheLookup::Hit);
    assert_eq!(acquire_decision(Some(&meta), false, "2025-03-04T05:06:07Z"), CacheLookup::Miss);
    assert_eq!(acquire_decision(Some(&meta), true, "2025-03-05"), CacheLookup::Miss);
}

#[test]
fn corrupt_or_missing_meta_is_a_miss() {
    assert_eq!(acquire_decision(Some(b"not json"), true, "x"), CacheLookup::Miss);
    assert_eq!(acquire_decision(Some(br#"{"chart_updated":5}"#), true, "5"), CacheLookup::Miss);
    assert_eq!(acquire_decision(Some(br#"{"other":"x"}"#), true, "x"), CacheLookup::Miss);
    assert_eq!(acquire_decision(None, true, "x"), CacheLookup::Miss);
    assert_eq!(acquire_decision(Some(br#"{"chart_updated":"x","more":1}"#), true, "x"), CacheLookup::Hit);
}
