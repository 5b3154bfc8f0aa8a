use chrono::DateTime;
use ota_server::clock::Timestamp;
use ota_server::clock::MAX_SECONDS;
use ota_server::clock::MIN_SECONDS;

#[test]
fn timestamp_new_keeps_its_numbers() {
    let t = Timestamp::new(1_700_000_000, 123_456_789).unwrap();
    assert_eq!(t.secs(), 1_700_000_000);
    assert_eq!(t.nanos(), 123_456_789);
}

#[test]
fn rfc3339_of_whole_seconds() {
    let t = Timestamp::new(1_700_000_000, 0).unwrap();
    assert_eq!(t.to_rfc3339(), "2023-11-14T22:13:20+00:00");
}

#[test]
fn rfc3339_of_the_epoch() {
    let t = Timestamp::new(0, 0).unwrap();
    assert_eq!(t.to_rfc3339(), "1970-01-01T00:00:00+00:00");
}

#[test]
fn rfc3339_with_fractions() {
    assert_eq!(
        Timestamp::new(1_700_000_000, 500_000_000).unwrap().to_rfc3339(),
        "2023-11-14T22:13:20.500+00:00"
    );
    assert_eq!(
        Timestamp::new(1_700_000_000, 1_000).unwrap().to_rfc3339(),
        "2023-11-14T22:13:20.000001+00:00"
    );
    assert_eq!(
        Timestamp::new(1_700_000_000, 1).unwrap().to_rfc3339(),
        "2023-11-14T22:13:20.000000001+00:00"
    );
}

#[test]
fn rfc3339_before_the_epoch() {
    let t = Timestamp::new(-1, 0).unwrap();
    assert_eq!(t.to_rfc3339(), "1969-12-31T23:59:59+00:00");
}

#[test]
fn bounds_are_those_of_chrono() {
    assert_eq!(DateTime::<chrono::Utc>::MIN_UTC.timestamp(), MIN_SECONDS);
    assert_eq!(DateTime::<chrono::Utc>::MAX_UTC.timestamp(), MAX_SECONDS);
    assert!(DateTime::from_timestamp(MIN_SECONDS, 0).is_some());
    assert!(DateTime::from_timestamp(MIN_SECONDS - 1, 0).is_none());
    assert!(DateTime::from_timestamp(MAX_SECONDS, 999_999_999).is_some());
    assert!(DateTime::from_timestamp(MAX_SECONDS + 1, 0).is_none());
}

#[test]
fn timestamp_new_accepts_exactly_what_chrono_accepts() {
    let seconds = [
        i64::MIN,
        MIN_SECONDS - 1,
        MIN_SECONDS,
        MIN_SECONDS + 59,
        MIN_SECONDS + 60,
        -86_401,
        -61,
        -60,
        -1,
        0,
        1,
        58,
        59,
        60,
        119,
        1_700_000_000,
        1_700_000_039,
        MAX_SECONDS - 1,
        MAX_SECONDS,
        MAX_SECONDS + 1,
        i64::MAX,
    ];
    let nanos = [
        0u32,
        1,
        999_999_999,
        1_000_000_000,
        1_500_000_000,
        1_999_999_999,
        2_000_000_000,
        u32::MAX,
    ];
    for s in seconds {
        for n in nanos {
            let ours = Timestamp::new(s, n);
            let theirs = DateTime::from_timestamp(s, n);
            assert_eq!(ours.is_some(), theirs.is_some(), "secs {} nanos {}", s, n);
            if let (Some(ours), Some(theirs)) = (ours, theirs) {
                assert_eq!(ours.secs(), theirs.timestamp());
                assert_eq!(ours.nanos(), theirs.timestamp_subsec_nanos());
                assert_eq!(ours.to_rfc3339(), theirs.to_rfc3339());
            }
        }
    }
}

#[test]
fn leap_second_only_at_the_end_of_a_minute() {
    assert!(Timestamp::new(59, 1_000_000_000).is_some());
    assert!(Timestamp::new(58, 1_000_000_000).is_none());
    assert!(Timestamp::new(-1, 1_999_999_999).is_some());
    assert!(Timestamp::new(-2, 1_000_000_000).is_none());
    assert!(Timestamp::new(59, 2_000_000_000).is_none());
}

#[test]
fn rfc3339_at_the_bounds() {
    assert_eq!(
        Timestamp::new(MAX_SECONDS, 0).unwrap().to_rfc3339(),
        "+262142-12-31T23:59:59+00:00"
    );
    assert_eq!(
        Timestamp::new(MIN_SECONDS, 0).unwrap().to_rfc3339(),
        "-262143-01-01T00:00:00+00:00"
    );
}

#[test]
fn now_is_a_time_of_today() {
    let before = chrono::Utc::now().timestamp();
    let now = Timestamp::now().unwrap();
    let after = chrono::Utc::now().timestamp();
    assert!(before <= now.secs() && now.secs() <= after);
    assert!(now.nanos() < 1_000_000_000);
    assert!(Timestamp::new(now.secs(), now.nanos()).is_some());
}

#[test]
fn timestamps_compare_by_their_numbers() {
    let a = Timestamp::new(10, 5).unwrap();
    let b = Timestamp::new(10, 5).unwrap();
    let c = Timestamp::new(10, 6).unwrap();
    assert_eq!(a, b);
    assert_ne!(a, c);
}
