use debug_capture::filename::{
    build_filename, build_filename_at, compose_filename, TIMESTAMP_PATTERN, UNKNOWN_TRACE_ID,
};

#[test]
fn filename_joins_timestamp_id_and_category() {
    let name = compose_filename("20240102_030405.678", "upstream_response", Some("abc123"));
    assert_eq!(name, "20240102_030405.678_abc123_upstream_response.json");
}

#[test]
fn filename_without_id_says_unknown() {
    let name = compose_filename("20240102_030405.678", "upstream_response", None);
    assert_eq!(name, "20240102_030405.678_unknown_upstream_response.json");
    assert_eq!(UNKNOWN_TRACE_ID, "unknown");
}

#[test]
fn filename_keeps_an_empty_id_empty() {
    let name = compose_filename("20240102_030405.678", "resp", Some(""));
    assert_eq!(name, "20240102_030405.678__resp.json");
}

#[test]
fn filename_at_fixed_clock_reading() {
    let name = build_filename_at(1_700_000_000_123, "upstream_response", Some("abc123"));
    assert_eq!(
        name,
        Some(String::from("20231114_221320.123_abc123_upstream_response.json"))
    );
}

#[test]
fn filename_at_fixed_clock_reading_without_id() {
    let name = build_filename_at(1_700_000_000_123, "upstream_response", None);
    assert_eq!(
        name,
        Some(String::from("20231114_221320.123_unknown_upstream_response.json"))
    );
}

#[test]
fn filename_at_the_epoch() {
    let name = build_filename_at(0, "resp", Some("t1"));
    assert_eq!(name, Some(String::from("19700101_000000.000_t1_resp.json")));
}

#[test]
fn filename_just_before_the_epoch() {
    let name = build_filename_at(-1, "resp", Some("t1"));
    assert_eq!(name, Some(String::from("19691231_235959.999_t1_resp.json")));
}

#[test]
fn filename_has_millisecond_resolution() {
    let first = build_filename_at(1_700_000_000_123, "resp", Some("t1"));
    let second = build_filename_at(1_700_000_000_124, "resp", Some("t1"));
    assert_eq!(first, Some(String::from("20231114_221320.123_t1_resp.json")));
    assert_eq!(second, Some(String::from("20231114_221320.124_t1_resp.json")));
}

#[test]
fn filename_of_unrepresentable_reading_is_none() {
    assert_eq!(build_filename_at(i64::MAX, "resp", Some("t1")), None);
    assert_eq!(build_filename_at(i64::MIN, "resp", None), None);
}

#[test]
fn filename_now_has_the_expected_shape() {
    let name = build_filename("upstream_response", Some("abc123")).expect("the clock is in range");
    assert!(name.ends_with("_abc123_upstream_response.json"));
    let timestamp = &name[..name.len() - "_abc123_upstream_response.json".len()];
    let bytes = timestamp.as_bytes();
    assert_eq!(bytes.len(), 19);
    for (at, byte) in bytes.iter().enumerate() {
        match at {
            8 => assert_eq!(*byte, b'_'),
            15 => assert_eq!(*byte, b'.'),
            _ => assert!(byte.is_ascii_digit()),
        }
    }
}

#[test]
fn filename_now_is_later_than_a_past_reading() {
    let past = build_filename_at(1_700_000_000_123, "resp", None).expect("a name");
    let now = build_filename("resp", None).expect("the clock is in range");
    assert!(past[..19] < now[..19]);
    assert!(now.ends_with("_unknown_resp.json"));
}

#[test]
fn timestamp_pattern_is_the_documented_one() {
    assert_eq!(TIMESTAMP_PATTERN, "%Y%m%d_%H%M%S%.3f");
}
