use securenet::clock::{Timestamp, LAST_CERT_SECS, MAX_SECS, MIN_SECS};

fn at(secs: i64, nanos: u32) -> Timestamp {
    Timestamp { secs, nanos }
}

#[test]
fn the_calendar_is_that_of_chrono() {
    assert_eq!(MAX_SECS, chrono::DateTime::<chrono::Utc>::MAX_UTC.timestamp());
    assert_eq!(MIN_SECS, chrono::DateTime::<chrono::Utc>::MIN_UTC.timestamp());
    assert_eq!(chrono::DateTime::<chrono::Utc>::MAX_UTC.timestamp_subsec_nanos(), 999_999_999);
}

#[test]
fn certificates_can_be_dated_up_to_the_year_9999() {
    assert!(time::OffsetDateTime::from_unix_timestamp(LAST_CERT_SECS).is_ok());
    assert_eq!(time::OffsetDateTime::from_unix_timestamp(LAST_CERT_SECS).unwrap().year(), 9999);
}

#[test]
fn validity_of_points_in_time() {
    assert!(at(0, 0).is_valid());
    assert!(at(MAX_SECS, 999_999_999).is_valid());
    assert!(!at(MAX_SECS + 1, 0).is_valid());
    assert!(!at(MIN_SECS - 1, 0).is_valid());
    assert!(!at(0, 1_000_000_000).is_valid());
}

#[test]
fn seconds_between_points_are_truncated() {
    assert_eq!(at(10, 0).secs_since(&at(3, 0)), 7);
    assert_eq!(at(10, 0).secs_since(&at(3, 1)), 6);
    assert_eq!(at(3, 1).secs_since(&at(10, 0)), -6);
    assert_eq!(at(3, 0).secs_since(&at(10, 0)), -7);
    assert_eq!(at(3, 0).secs_since(&at(3, 5)), 0);
}

#[test]
fn seconds_between_points_agree_with_chrono() {
    let points = [at(0, 0), at(5, 999_999_999), at(6, 1), at(-7, 3), at(1_700_000_000, 5)];
    for a in points {
        for b in points {
            let x = chrono::DateTime::from_timestamp(a.secs, a.nanos).unwrap();
            let y = chrono::DateTime::from_timestamp(b.secs, b.nanos).unwrap();
            assert_eq!(a.secs_since(&b), x.signed_duration_since(y).num_seconds());
        }
    }
}

#[test]
fn later_points_stay_in_the_calendar() {
    assert_eq!(at(10, 7).plus_secs(300), Some(at(310, 7)));
    assert_eq!(at(10, 7).plus_secs(-20), Some(at(-10, 7)));
    assert_eq!(at(MAX_SECS, 0).plus_secs(1), None);
    assert_eq!(at(MIN_SECS, 0).plus_secs(-1), None);
    assert_eq!(at(10, 7).plus_secs(i64::MAX), None);
}
