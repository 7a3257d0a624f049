use securenet::clock::{Timestamp, MAX_SECS};
use securenet::models::CertBundle;

fn at(secs: i64, nanos: u32) -> Timestamp {
    Timestamp { secs, nanos }
}

fn bundle(expires_at: Timestamp) -> CertBundle {
    CertBundle {
        cert_pem: "cert".to_string(),
        key_pem: "key".to_string(),
        ca_pem: "ca".to_string(),
        expires_at,
        serial: "0000000000000001".to_string(),
    }
}

fn now() -> i64 {
    chrono::Utc::now().timestamp()
}

#[test]
fn remaining_time_is_in_whole_seconds() {
    let b = bundle(at(1000, 500));
    assert_eq!(b.ttl_secs_at(&at(700, 500)), 300);
    assert_eq!(b.ttl_secs_at(&at(700, 501)), 299);
    assert_eq!(b.ttl_secs_at(&at(999, 500)), 1);
}

#[test]
fn no_time_remains_after_expiry() {
    let b = bundle(at(1000, 500));
    assert_eq!(b.ttl_secs_at(&at(999, 501)), 0);
    assert_eq!(b.ttl_secs_at(&at(1000, 500)), 0);
    assert_eq!(b.ttl_secs_at(&at(5000, 0)), 0);
    assert_eq!(bundle(at(0, 0)).ttl_secs(), 0);
}

#[test]
fn remaining_time_follows_the_clock() {
    let ttl = bundle(at(now() + 300, 0)).ttl_secs();
    assert!((295..=300).contains(&ttl), "{ttl}");
}

#[test]
fn the_clock_is_never_before_1970() {
    assert_eq!(bundle(at(-1, 999_999_999)).ttl_secs(), 0);
    assert!(bundle(at(5_000_000_000, 0)).ttl_secs() <= 5_000_000_000);
    assert!(bundle(at(0, 0)).renew_at().is_some());
}

#[test]
fn renewal_falls_at_nine_tenths() {
    let b = bundle(at(1000, 0));
    assert_eq!(b.renew_at_from(&at(700, 0), &at(700, 0)), Some(at(970, 0)));
    assert_eq!(b.renew_at_from(&at(700, 0), &at(701, 9)), Some(at(971, 9)));
    assert_eq!(b.renew_at_from(&at(1011, 0), &at(1011, 0)), Some(at(1002, 0)));
}

#[test]
fn renewal_beyond_the_calendar_is_none() {
    let b = bundle(at(MAX_SECS, 0));
    assert_eq!(b.renew_at_from(&at(0, 0), &at(MAX_SECS, 0)), None);
}

#[test]
fn renewal_follows_the_clock() {
    let t = now();
    let due = bundle(at(t + 1000, 0)).renew_at().unwrap();
    assert!((t + 895..=t + 902).contains(&due.secs), "{}", due.secs - t);
}

#[test]
fn clones_are_equal() {
    let b = bundle(at(1000, 500));
    let c = b.clone();
    assert_eq!((b.cert_pem, b.key_pem, b.ca_pem, b.serial), (c.cert_pem, c.key_pem, c.ca_pem, c.serial));
    assert_eq!(b.expires_at, c.expires_at);
}
