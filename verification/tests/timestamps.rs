use arcdps::timestamp::{Timestamp, MAX_RAW_SECS, NANOS_PER_SEC};
use chrono::{DateTime, Offset};

#[test]
fn rfc3339_in_utc_is_parsed() {
    assert_eq!(
        Timestamp::parse_from_rfc3339("2022-07-09T11:45:24.888Z"),
        Some(Timestamp { secs: 1657367124, nanos: 888_000_000, offset_secs: 0 })
    );
}

#[test]
fn rfc3339_keeps_the_stated_offset() {
    assert_eq!(
        Timestamp::parse_from_rfc3339("1996-12-19T16:39:57-08:00"),
        Some(Timestamp { secs: 851042397, nanos: 0, offset_secs: -8 * 3600 })
    );
    assert_eq!(
        Timestamp::parse_from_rfc3339("2022-07-09T13:45:24+02:00"),
        Some(Timestamp { secs: 1657367124, nanos: 0, offset_secs: 2 * 3600 })
    );
}

#[test]
fn rfc3339_agrees_with_chrono() {
    let text = "2023-01-31T23:59:59.123456789+05:30";
    let parsed = Timestamp::parse_from_rfc3339(text).unwrap();
    let theirs = DateTime::parse_from_rfc3339(text).unwrap();
    assert_eq!(parsed.secs, theirs.to_utc().timestamp());
    assert_eq!(parsed.nanos, theirs.timestamp_subsec_nanos());
    assert_eq!(parsed.offset_secs, theirs.offset().fix().local_minus_utc());
}

#[test]
fn text_that_is_no_rfc3339_is_refused() {
    assert_eq!(Timestamp::parse_from_rfc3339(""), None);
    assert_eq!(Timestamp::parse_from_rfc3339("yesterday"), None);
    assert_eq!(Timestamp::parse_from_rfc3339("2022-07-09 11:45"), None);
    assert_eq!(Timestamp::parse_from_rfc3339("2022-13-09T11:45:24Z"), None);
}

#[test]
fn nanoseconds_split_into_seconds_and_rest() {
    assert_eq!(
        Timestamp::from_raw_nanos(1_662_921_288_123_456_789),
        Timestamp { secs: 1_662_921_288, nanos: 123_456_789, offset_secs: 0 }
    );
    assert_eq!(Timestamp::from_raw_nanos(0), Timestamp { secs: 0, nanos: 0, offset_secs: 0 });
    assert_eq!(
        Timestamp::from_raw_nanos(999_999_999),
        Timestamp { secs: 0, nanos: 999_999_999, offset_secs: 0 }
    );
    assert_eq!(
        Timestamp::from_raw_nanos(NANOS_PER_SEC as u64),
        Timestamp { secs: 1, nanos: 0, offset_secs: 0 }
    );
}

#[test]
fn raw_nanoseconds_never_lie_before_the_epoch() {
    assert_eq!(
        Timestamp::from_raw_nanos(i64::MAX as u64),
        Timestamp { secs: 9_223_372_036, nanos: 854_775_807, offset_secs: 0 }
    );
    assert_eq!(
        Timestamp::from_raw_nanos(1u64 << 63),
        Timestamp { secs: 9_223_372_036, nanos: 854_775_808, offset_secs: 0 }
    );
    assert_eq!(
        Timestamp::from_raw_nanos(u64::MAX),
        Timestamp { secs: MAX_RAW_SECS, nanos: 709_551_615, offset_secs: 0 }
    );
}

#[test]
fn raw_nanoseconds_keep_their_order() {
    let counts = [0, 1, 999_999_999, 1_000_000_000, (1u64 << 63) - 1, 1u64 << 63, u64::MAX];
    for pair in counts.windows(2) {
        let earlier = Timestamp::from_raw_nanos(pair[0]);
        let later = Timestamp::from_raw_nanos(pair[1]);
        assert!((earlier.secs, earlier.nanos) < (later.secs, later.nanos));
    }
}

#[test]
fn raw_nanoseconds_agree_with_chrono() {
    for raw in [0u64, 1_662_921_288_123_456_789, 1u64 << 63, u64::MAX] {
        let ours = Timestamp::from_raw_nanos(raw);
        let theirs = DateTime::from_timestamp(ours.secs, ours.nanos).unwrap();
        let nanos = theirs.timestamp() as u128 * 1_000_000_000 + theirs.timestamp_subsec_nanos() as u128;
        assert_eq!(nanos, raw as u128);
    }
}
