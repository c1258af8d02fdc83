use butler_logger::timestamp::{Timestamp, MAX_SECONDS};

#[test]
fn timestamp_new_accepts_the_representable_range() {
    assert!(Timestamp::new(0, 0).is_some());
    assert!(Timestamp::new(MAX_SECONDS, 999_999_999).is_some());
    assert!(Timestamp::new(-1, 0).is_none());
    assert!(Timestamp::new(MAX_SECONDS + 1, 0).is_none());
    assert!(Timestamp::new(0, 1_000_000_000).is_none());
    let t = Timestamp::new(5, 6).unwrap();
    assert_eq!((t.secs(), t.nanos()), (5, 6));
}

#[test]
fn a_reading_is_brought_into_range() {
    let t = Timestamp::from_reading(-5, 1_500_000_000);
    assert_eq!((t.secs(), t.nanos()), (0, 999_999_999));
    let t = Timestamp::from_reading(i64::MAX, 7);
    assert_eq!((t.secs(), t.nanos()), (MAX_SECONDS, 7));
    let t = Timestamp::from_reading(1_700_000_000, 123);
    assert_eq!((t.secs(), t.nanos()), (1_700_000_000, 123));
}

#[test]
fn console_text_has_millisecond_precision() {
    assert_eq!(Timestamp::new(0, 0).unwrap().console_text(), "1970-01-01 00:00:00.000");
    assert_eq!(
        Timestamp::new(1_700_000_000, 123_456_789).unwrap().console_text(),
        "2023-11-14 22:13:20.123"
    );
    assert_eq!(
        Timestamp::new(MAX_SECONDS, 999_999_999).unwrap().console_text(),
        "9999-12-31 23:59:59.999"
    );
}

#[test]
fn iso_text_is_utc_with_exact_fraction() {
    assert_eq!(Timestamp::new(0, 0).unwrap().iso_text(), "1970-01-01T00:00:00Z");
    assert_eq!(
        Timestamp::new(1_700_000_000, 123_000_000).unwrap().iso_text(),
        "2023-11-14T22:13:20.123Z"
    );
    assert_eq!(
        Timestamp::new(1_700_000_000, 123_456_000).unwrap().iso_text(),
        "2023-11-14T22:13:20.123456Z"
    );
    assert_eq!(
        Timestamp::new(1_700_000_000, 123_456_789).unwrap().iso_text(),
        "2023-11-14T22:13:20.123456789Z"
    );
    assert_eq!(
        Timestamp::new(MAX_SECONDS, 0).unwrap().iso_text(),
        "9999-12-31T23:59:59Z"
    );
}

#[test]
fn iso_text_is_what_chrono_serializes() {
    let t = Timestamp::new(1_700_000_000, 5_000).unwrap();
    let instant = chrono::DateTime::from_timestamp(1_700_000_000, 5_000).unwrap();
    let quoted = serde_json::to_string(&instant).unwrap();
    assert_eq!(format!("\"{}\"", t.iso_text()), quoted);
}

#[test]
fn now_is_a_recent_instant() {
    let t = Timestamp::now();
    assert!(t.secs() > 1_600_000_000);
    assert!(t.secs() <= MAX_SECONDS);
    assert!(t.nanos() < 1_000_000_000);
}

#[test]
fn a_copy_holds_the_same_instant() {
    let t = Timestamp::new(77, 88).unwrap();
    let copy = t.clone();
    assert_eq!((copy.secs(), copy.nanos()), (77, 88));
}
