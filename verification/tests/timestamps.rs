use tm::timestamp::Timestamp;
use tm::timestamp::MAX_SECONDS;
use tm::timestamp::MIN_SECONDS;

fn at(secs: i64, nanos: u32) -> Timestamp {
    Timestamp::new(secs, nanos).unwrap()
}

#[test]
fn range_is_that_of_chrono() {
    assert_eq!(chrono::DateTime::<chrono::Utc>::MIN_UTC.timestamp(), MIN_SECONDS);
    assert_eq!(chrono::DateTime::<chrono::Utc>::MAX_UTC.timestamp(), MAX_SECONDS);
    assert!(chrono::DateTime::from_timestamp(MIN_SECONDS, 0).is_some());
    assert!(chrono::DateTime::from_timestamp(MIN_SECONDS - 1, 0).is_none());
    assert!(chrono::DateTime::from_timestamp(MAX_SECONDS, 999_999_999).is_some());
    assert!(chrono::DateTime::from_timestamp(MAX_SECONDS + 1, 0).is_none());
}

#[test]
fn new_accepts_the_range_and_nothing_else() {
    assert!(Timestamp::new(0, 0).is_some());
    assert!(Timestamp::new(MIN_SECONDS, 0).is_some());
    assert!(Timestamp::new(MAX_SECONDS, 999_999_999).is_some());
    assert!(Timestamp::new(MIN_SECONDS - 1, 0).is_none());
    assert!(Timestamp::new(MAX_SECONDS + 1, 0).is_none());
    assert!(Timestamp::new(0, 1_000_000_000).is_none());
    assert!(Timestamp::new(59, 1_500_000_000).is_none());
    assert!(Timestamp::new(i64::MIN, 0).is_none());
    assert!(Timestamp::new(i64::MAX, u32::MAX).is_none());
}

#[test]
fn new_keeps_seconds_and_nanoseconds() {
    let instant = at(1_704_164_645, 123_456_789);
    assert_eq!(instant.seconds(), 1_704_164_645);
    assert_eq!(instant.subsec_nanos(), 123_456_789);
    let early = at(-1, 5);
    assert_eq!(early.seconds(), -1);
    assert_eq!(early.subsec_nanos(), 5);
}

#[test]
fn now_is_after_the_epoch() {
    let first = Timestamp::now();
    let second = Timestamp::now();
    assert!(first.seconds() > 1_600_000_000);
    assert!(first.subsec_nanos() < 1_000_000_000);
    assert!(second.seconds() >= first.seconds());
}

#[test]
fn to_rfc3339_writes_only_the_digits_needed() {
    assert_eq!(at(0, 0).to_rfc3339(), "1970-01-01T00:00:00Z");
    assert_eq!(at(1_704_164_645, 0).to_rfc3339(), "2024-01-02T03:04:05Z");
    assert_eq!(at(1_704_164_645, 120_000_000).to_rfc3339(), "2024-01-02T03:04:05.120Z");
    assert_eq!(at(1_704_164_645, 123_456_000).to_rfc3339(), "2024-01-02T03:04:05.123456Z");
    assert_eq!(at(1_704_164_645, 123_456_789).to_rfc3339(), "2024-01-02T03:04:05.123456789Z");
    assert_eq!(at(1_704_164_645, 1).to_rfc3339(), "2024-01-02T03:04:05.000000001Z");
    assert_eq!(at(-1, 999_999_999).to_rfc3339(), "1969-12-31T23:59:59.999999999Z");
}

#[test]
fn to_rfc3339_signs_years_outside_four_digits() {
    assert_eq!(at(253_402_300_800, 0).to_rfc3339(), "+10000-01-01T00:00:00Z");
    assert_eq!(at(-62_167_219_201, 0).to_rfc3339(), "-0001-12-31T23:59:59Z");
    assert_eq!(at(MAX_SECONDS, 0).to_rfc3339(), "+262142-12-31T23:59:59Z");
    assert_eq!(at(MIN_SECONDS, 0).to_rfc3339(), "-262143-01-01T00:00:00Z");
}

#[test]
fn parse_reads_rfc3339() {
    assert_eq!(Timestamp::parse("1970-01-01T00:00:00Z"), Some(at(0, 0)));
    assert_eq!(Timestamp::parse("2024-01-02T03:04:05Z"), Some(at(1_704_164_645, 0)));
    assert_eq!(
        Timestamp::parse("2024-01-02T03:04:05.123456789Z"),
        Some(at(1_704_164_645, 123_456_789))
    );
    assert_eq!(Timestamp::parse("2024-01-02T03:04:05.5+00:00"), Some(at(1_704_164_645, 500_000_000)));
}

#[test]
fn parse_converts_offsets_to_utc() {
    assert_eq!(Timestamp::parse("2024-01-02T05:04:05+02:00"), Some(at(1_704_164_645, 0)));
    assert_eq!(Timestamp::parse("2024-01-01T22:04:05-05:00"), Some(at(1_704_164_645, 0)));
}

#[test]
fn parse_refuses_what_is_no_instant() {
    assert_eq!(Timestamp::parse(""), None);
    assert_eq!(Timestamp::parse("yesterday"), None);
    assert_eq!(Timestamp::parse("2024-01-02"), None);
    assert_eq!(Timestamp::parse("2024-01-02T03:04:05"), None);
    assert_eq!(Timestamp::parse("2024-13-02T03:04:05Z"), None);
    assert_eq!(Timestamp::parse("2024-01-02T03:04:05Z and more"), None);
}

#[test]
fn parse_refuses_a_leap_second() {
    assert_eq!(Timestamp::parse("2016-12-31T23:59:60Z"), None);
}

#[test]
fn what_is_written_reads_back_as_the_same_instant() {
    let instants = [
        at(0, 0),
        at(1, 1),
        at(-1, 999_999_999),
        at(1_704_164_645, 123_456_789),
        at(1_704_164_645, 123_000_000),
        at(946_684_799, 999_000),
        at(253_402_300_799, 999_999_999),
        at(253_402_300_800, 0),
        at(-62_167_219_200, 0),
        at(-62_167_219_201, 999_999_999),
        at(MIN_SECONDS, 0),
        at(MIN_SECONDS, 999_999_999),
        at(MAX_SECONDS, 0),
        at(MAX_SECONDS, 999_999_999),
    ];
    for instant in instants {
        assert_eq!(Timestamp::parse(&instant.to_rfc3339()), Some(instant));
    }
}

#[test]
fn to_minute_drops_the_seconds() {
    assert_eq!(at(0, 0).to_minute(), "1970-01-01 00:00");
    assert_eq!(at(1_704_164_645, 123_456_789).to_minute(), "2024-01-02 03:04");
    assert_eq!(at(946_684_799, 0).to_minute(), "1999-12-31 23:59");
}
