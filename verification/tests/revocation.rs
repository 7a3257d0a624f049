use securenet::clock::Timestamp;
use securenet::revocation::{peer_serial, RevocationCache, POLL_SECS};
use securenet::vault::issuer::{generate_ca, Issuer, SerialCounter};

const NOW: i64 = 1_700_000_000;

fn issuer() -> (Issuer, SerialCounter) {
    let (cert, key) = generate_ca().unwrap();
    (Issuer::from_pem(&cert, &key).unwrap(), SerialCounter::new())
}

/// Issues a certificate and gives its serial number and its DER form.
fn issue(authority: &mut (Issuer, SerialCounter)) -> (String, Vec<u8>) {
    let today = Timestamp { secs: NOW, nanos: 0 };
    let bundle = authority.0.issue_at(&mut authority.1, "user-service", NOW, today).unwrap();
    let mut pem = bundle.cert_pem.as_bytes();
    let certificate = rustls_pemfile::certs(&mut pem).next().unwrap().unwrap();
    (bundle.serial, certificate.to_vec())
}

#[test]
fn serial_numbers_are_read_as_the_vault_writes_them() {
    let mut issuer = issuer();
    let (first, certificate) = issue(&mut issuer);
    assert_eq!(first, "0000000000000001");
    assert_eq!(peer_serial(&certificate), Some(first));
    let (second, certificate) = issue(&mut issuer);
    assert_eq!(peer_serial(&certificate), Some(second));
}

#[test]
fn long_serial_numbers_are_not_padded() {
    let mut params = rcgen::CertificateParams::new(vec!["a".to_string()]).unwrap();
    params.serial_number = Some(vec![1, 2, 3, 4, 5, 6, 7, 8, 255].into());
    let key = rcgen::KeyPair::generate().unwrap();
    let certificate = params.self_signed(&key).unwrap();
    assert_eq!(peer_serial(certificate.der()), Some("0102030405060708ff".to_string()));
}

#[test]
fn what_is_no_certificate_has_no_serial_number() {
    assert_eq!(peer_serial(b"not a certificate"), None);
    assert_eq!(peer_serial(&[]), None);
    assert!(!RevocationCache::new().rejects_peer(Some(b"not a certificate")));
}

#[test]
fn revoked_peers_are_rejected_and_others_are_not() {
    let mut issuer = issuer();
    let (revoked, revoked_certificate) = issue(&mut issuer);
    let (_, other_certificate) = issue(&mut issuer);
    let mut cache = RevocationCache::new();
    assert!(!cache.rejects_peer(Some(&revoked_certificate)));
    cache.refresh(Ok(vec!["ffff".to_string(), revoked.clone()]));
    assert!(cache.rejects(&revoked));
    assert!(!cache.rejects("0000000000000002"));
    assert!(cache.rejects_peer(Some(&revoked_certificate)));
    assert!(!cache.rejects_peer(Some(&other_certificate)));
    assert!(!cache.rejects_peer(None));
}

#[test]
fn the_last_list_stays_where_fetching_fails() {
    let mut cache = RevocationCache::new();
    cache.refresh(Ok(vec!["a".to_string()]));
    cache.refresh(Err("connection refused".to_string()));
    assert!(cache.rejects("a"));
    cache.refresh(Ok(Vec::new()));
    assert!(!cache.rejects("a"));
}

#[test]
fn the_list_is_fetched_every_30_seconds() {
    assert_eq!(POLL_SECS, 30);
}
