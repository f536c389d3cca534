use tsdata_ingest::dates::{normalize_timestamp, normalize_timestamp_now};

const UTC_2024_01_15_10_30: i64 = 1_705_314_600_000;
const UTC_2024_01_15_MIDNIGHT: i64 = 1_705_276_800_000;

#[test]
fn rfc3339_utc_parses_to_encoded_instant() {
    let r = normalize_timestamp(&Some("2024-01-15T10:30:00Z".to_string()), 0);
    assert_eq!(r.unwrap(), UTC_2024_01_15_10_30);
}

#[test]
fn rfc3339_offset_converts_to_utc_exactly() {
    let r = normalize_timestamp(&Some("2024-01-15T12:30:00+02:00".to_string()), 0);
    assert_eq!(r.unwrap(), UTC_2024_01_15_10_30);
}

#[test]
fn rfc3339_subsecond_precision_is_kept() {
    let r = normalize_timestamp(&Some("2024-01-15T10:30:00.500Z".to_string()), 0);
    assert_eq!(r.unwrap(), UTC_2024_01_15_10_30 + 500);
}

#[test]
fn naive_datetime_is_read_as_utc() {
    let r = normalize_timestamp(&Some("2024-01-15 10:30:00".to_string()), 0);
    assert_eq!(r.unwrap(), UTC_2024_01_15_10_30);
}

#[test]
fn date_only_resolves_to_utc_midnight() {
    let r = normalize_timestamp(&Some("2024-01-15".to_string()), 0);
    assert_eq!(r.unwrap(), UTC_2024_01_15_MIDNIGHT);
}

#[test]
fn absent_timestamp_defaults_to_given_instant() {
    let r = normalize_timestamp(&None, 123_456_789);
    assert_eq!(r.unwrap(), 123_456_789);
}

#[test]
fn absent_timestamp_defaults_to_wall_clock() {
    let before = chrono::Utc::now().timestamp_millis();
    let r = normalize_timestamp_now(&None).unwrap();
    let after = chrono::Utc::now().timestamp_millis();
    assert!(before <= r && r <= after);
}

#[test]
fn unparseable_timestamp_fails_carrying_input() {
    let r = normalize_timestamp(&Some("not-a-date".to_string()), 99);
    let e = r.unwrap_err();
    assert_eq!(e.input, "not-a-date");
}

#[test]
fn out_of_range_date_fails_not_defaults() {
    let r = normalize_timestamp(&Some("2024-13-45".to_string()), 99);
    assert!(r.is_err());
}

#[test]
fn present_string_ignores_the_clock() {
    let a = normalize_timestamp(&Some("2024-01-15".to_string()), 0).unwrap();
    let b = normalize_timestamp(&Some("2024-01-15".to_string()), 999_999).unwrap();
    assert_eq!(a, b);
}
