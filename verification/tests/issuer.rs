use rcgen::{
    BasicConstraints, CertificateParams, DnType, DnValue, ExtendedKeyUsagePurpose, IsCa,
    KeyUsagePurpose, SanType,
};
use securenet::clock::{Timestamp, FIRST_CERT_SECS, LAST_CERT_SECS, MAX_SECS};
use securenet::models::CertBundle;
use securenet::vault::issuer::{
    conclude, conclude_root, generate_ca, generate_ca_at, leaf_profile, root_profile, sign_root,
    IssueError, Issuer, SerialCounter, CA_TTL_SECS,
};

const NOW: i64 = 1_700_000_000;

fn today() -> Timestamp {
    Timestamp { secs: 1_600_000_000, nanos: 7 }
}

fn issuer() -> (Issuer, SerialCounter) {
    let (cert, key) = generate_ca().unwrap();
    (Issuer::from_pem(&cert, &key).unwrap(), SerialCounter::new())
}

fn read(bundle: &CertBundle) -> CertificateParams {
    CertificateParams::from_ca_cert_pem(&bundle.cert_pem).unwrap()
}

fn utf8(text: &str) -> DnValue {
    DnValue::Utf8String(text.to_string())
}

#[test]
fn leaf_certificates_say_what_they_should() {
    let (issuer, mut serials) = issuer();
    let bundle = issuer.issue_at(&mut serials, "user-service", NOW, today()).unwrap();
    let params = read(&bundle);
    assert_eq!(
        params.subject_alt_names,
        vec![
            SanType::DnsName("user-service".try_into().unwrap()),
            SanType::DnsName("user-service.securenet.svc.cluster.local".try_into().unwrap()),
            SanType::DnsName("localhost".try_into().unwrap()),
            SanType::IpAddress([127, 0, 0, 1].into()),
        ]
    );
    let names: Vec<_> = params.distinguished_name.iter().collect();
    assert_eq!(
        names,
        vec![
            (&DnType::CommonName, &utf8("user-service.securenet")),
            (&DnType::OrganizationName, &utf8("SecureNet")),
        ]
    );
    assert_eq!(params.not_before.unix_timestamp(), NOW);
    assert_eq!(params.not_after.unix_timestamp(), NOW + 300);
    assert_eq!(params.is_ca, IsCa::NoCa);
    assert_eq!(
        params.key_usages,
        vec![KeyUsagePurpose::DigitalSignature, KeyUsagePurpose::KeyEncipherment]
    );
    assert_eq!(
        params.extended_key_usages,
        vec![ExtendedKeyUsagePurpose::ServerAuth, ExtendedKeyUsagePurpose::ClientAuth]
    );
    assert_eq!(params.serial_number.unwrap().to_bytes(), vec![1]);
}

#[test]
fn bundles_carry_serial_expiry_and_root() {
    let (cert, key) = generate_ca().unwrap();
    let mut serials = SerialCounter::new();
    let issuer = Issuer::from_pem(&cert, &key).unwrap();
    let bundle = issuer.issue_at(&mut serials, "a", NOW, today()).unwrap();
    assert_eq!(bundle.serial, "0000000000000001");
    assert_eq!(bundle.ca_pem, cert);
    assert_eq!(issuer.ca_cert_pem(), cert);
    assert_eq!(bundle.expires_at, Timestamp { secs: today().secs + 300, nanos: 7 });
    assert!(rcgen::KeyPair::from_pem(&bundle.key_pem).is_ok());
}

#[test]
fn serial_numbers_count_up_even_after_errors() {
    let (issuer, mut serials) = issuer();
    assert_eq!(issuer.issue_at(&mut serials, "a", NOW, today()).unwrap().serial, "0000000000000001");
    assert!(issuer.issue_at(&mut serials, "\u{e4}", NOW, today()).is_err());
    let third = issuer.issue_at(&mut serials, "a", NOW, today()).unwrap();
    assert_eq!(third.serial, "0000000000000003");
    assert_eq!(read(&third).serial_number.unwrap().to_bytes(), vec![3]);
}

#[test]
fn keys_are_fresh() {
    let (issuer, mut serials) = issuer();
    let a = issuer.issue_at(&mut serials, "a", NOW, today()).unwrap();
    let b = issuer.issue_at(&mut serials, "a", NOW, today()).unwrap();
    assert_ne!(a.key_pem, b.key_pem);
    assert_ne!(a.cert_pem, b.cert_pem);
}

#[test]
fn names_that_are_addresses_become_addresses() {
    let (issuer, mut serials) = issuer();
    let names = read(&issuer.issue_at(&mut serials, "10.1.2.3", NOW, today()).unwrap()).subject_alt_names;
    assert_eq!(names[0], SanType::IpAddress([10, 1, 2, 3].into()));
    assert_eq!(
        names[1],
        SanType::DnsName("10.1.2.3.securenet.svc.cluster.local".try_into().unwrap())
    );
}

#[test]
fn names_must_be_ascii() {
    let (issuer, mut serials) = issuer();
    let error = issuer.issue_at(&mut serials, "f\u{fc}r", NOW, today()).unwrap_err();
    assert_eq!(error, IssueError::Params);
    assert_eq!(error.message(), "failed to build cert params");
}

#[test]
fn clocks_out_of_range_are_refused() {
    let (issuer, mut serials) = issuer();
    let mut issue = |now, today| issuer.issue_at(&mut serials, "a", now, today);
    assert_eq!(issue(FIRST_CERT_SECS - 1, today()).unwrap_err(), IssueError::Clock);
    assert_eq!(issue(LAST_CERT_SECS - 299, today()).unwrap_err(), IssueError::Clock);
    let late = Timestamp { secs: MAX_SECS - 299, nanos: 0 };
    assert_eq!(issue(NOW, late).unwrap_err(), IssueError::Clock);
    let last = Timestamp { secs: MAX_SECS - 300, nanos: 0 };
    assert!(issue(LAST_CERT_SECS - 300, last).is_ok());
    for now in [FIRST_CERT_SECS, -631_152_001, -631_152_000, -1, 0, 2_524_607_999, 2_524_608_000] {
        let bundle = issue(now, last).unwrap();
        assert_eq!(read(&bundle).not_before.unix_timestamp(), now);
        assert_eq!(read(&bundle).not_after.unix_timestamp(), now + 300);
    }
}

#[test]
fn certificates_are_dated_by_the_clock() {
    let (issuer, mut serials) = issuer();
    let before = chrono::Utc::now().timestamp();
    let bundle = issuer.issue(&mut serials, "a").unwrap();
    let after = chrono::Utc::now().timestamp();
    assert!((before..=after).contains(&read(&bundle).not_before.unix_timestamp()));
    assert!((before + 300..=after + 300).contains(&bundle.expires_at.secs));
}

#[test]
fn authorities_need_a_key() {
    let (cert, _) = generate_ca().unwrap();
    let error = Issuer::from_pem(&cert, "no key").err().unwrap();
    assert_eq!(error, IssueError::CaKey);
    assert_eq!(error.message(), "failed to parse CA private key");
}

#[test]
fn authorities_need_a_certificate() {
    let (_, key) = generate_ca().unwrap();
    let mut serials = SerialCounter::new();
    let issuer = Issuer::from_pem("no certificate", &key).unwrap();
    let error = issuer.issue_at(&mut serials, "a", NOW, today()).unwrap_err();
    assert_eq!(error, IssueError::CaCertificate);
    assert_eq!(error.message(), "failed to parse CA cert PEM");
}

#[test]
fn root_certificates_say_what_they_should() {
    let (cert, key) = generate_ca_at(NOW).unwrap();
    let params = CertificateParams::from_ca_cert_pem(&cert).unwrap();
    let names: Vec<_> = params.distinguished_name.iter().collect();
    assert_eq!(
        names,
        vec![
            (&DnType::CommonName, &utf8("SecureNet Root CA")),
            (&DnType::OrganizationName, &utf8("SecureNet")),
        ]
    );
    assert_eq!(params.is_ca, IsCa::Ca(BasicConstraints::Unconstrained));
    assert_eq!(params.not_before.unix_timestamp(), NOW);
    assert_eq!(params.not_after.unix_timestamp(), NOW + 3650 * 24 * 3600);
    assert_eq!(params.key_usages, vec![KeyUsagePurpose::KeyCertSign, KeyUsagePurpose::CrlSign]);
    assert!(params.extended_key_usages.is_empty() && params.subject_alt_names.is_empty());
    assert!(rcgen::KeyPair::from_pem(&key).is_ok());
}

#[test]
fn roots_cannot_be_dated_out_of_range() {
    assert_eq!(generate_ca_at(FIRST_CERT_SECS - 1).unwrap_err(), IssueError::Clock);
    assert!(generate_ca_at(FIRST_CERT_SECS).is_ok() && generate_ca_at(-1).is_ok());
    assert_eq!(generate_ca_at(LAST_CERT_SECS - CA_TTL_SECS + 1).unwrap_err(), IssueError::Clock);
    assert!(generate_ca_at(LAST_CERT_SECS - CA_TTL_SECS).is_ok());
}

#[test]
fn every_issue_error_has_a_message() {
    let texts = [
        (IssueError::Clock, "system clock is out of range"),
        (IssueError::LeafKey, "failed to generate leaf key pair"),
        (IssueError::CaRebuild, "failed to reconstruct CA cert"),
        (IssueError::Signing, "CA signing failed"),
        (IssueError::RootParams, "failed to create CA params"),
        (IssueError::RootKey, "failed to generate CA key pair"),
        (IssueError::RootSigning, "failed to self-sign CA"),
    ];
    for (error, text) in texts {
        assert_eq!(error.message(), text);
    }
}

#[test]
fn outcomes_of_signing_are_told_apart() {
    let no = || rcgen::Error::CouldNotParseCertificate;
    let key = || "key".to_string();
    let bundle = conclude(Ok(Ok("cert".to_string())), key(), "ca", 255, today()).unwrap();
    assert_eq!((bundle.cert_pem.as_str(), bundle.key_pem.as_str()), ("cert", "key"));
    assert_eq!((bundle.ca_pem.as_str(), bundle.serial.as_str()), ("ca", "00000000000000ff"));
    assert_eq!(bundle.expires_at, today());
    assert_eq!(conclude(Ok(Err(no())), key(), "ca", 1, today()).unwrap_err(), IssueError::Signing);
    assert_eq!(conclude(Err(no()), key(), "ca", 1, today()).unwrap_err(), IssueError::CaRebuild);
    let root = conclude_root(Ok("cert".to_string()), key()).unwrap();
    assert_eq!((root.0.as_str(), root.1.as_str()), ("cert", "key"));
    assert_eq!(conclude_root(Err(no()), key()).unwrap_err(), IssueError::RootSigning);
}

#[test]
fn profiles_list_names_and_usages() {
    let leaf = leaf_profile("a", NOW, 5);
    assert_eq!(leaf.names, vec!["a", "a.securenet.svc.cluster.local", "localhost"]);
    assert_eq!(leaf.common_name, "a.securenet");
    assert_eq!((leaf.not_before, leaf.not_after, leaf.serial), (NOW, NOW + 300, Some(5)));
    let root = root_profile(NOW);
    assert!(root.authority && root.names.is_empty() && root.serial.is_none());
}

#[test]
fn serial_numbers_rise_over_all_authorities() {
    let ((one, mut serials), (other, _)) = (issuer(), issuer());
    let first = one.issue(&mut serials, "a").unwrap().serial;
    let second = other.issue(&mut serials, "b").unwrap().serial;
    assert!(other.issue(&mut serials, "\u{e4}").is_err());
    let fourth = one.issue(&mut serials, "c").unwrap().serial;
    assert_eq!(first, "0000000000000001");
    assert!(first < second && second < fourth);
    assert_eq!(serials.take(), 5);
    assert_eq!(serials.take(), 6);
}

#[test]
fn outcomes_of_generating_a_root_key_are_told_apart() {
    let no = Err(rcgen::Error::RingUnspecified);
    assert_eq!(sign_root(no, NOW).unwrap_err(), IssueError::RootKey);
    let pem = rcgen::KeyPair::generate().unwrap().serialize_pem();
    let (cert, key) = sign_root(Ok(pem.clone()), NOW).unwrap();
    assert_eq!(key, pem);
    let params = CertificateParams::from_ca_cert_pem(&cert).unwrap();
    assert_eq!(params.is_ca, IsCa::Ca(BasicConstraints::Unconstrained));
    assert_eq!(params.not_before.unix_timestamp(), NOW);
    assert_eq!(params.not_after.unix_timestamp(), NOW + CA_TTL_SECS);
    let issuer = Issuer::from_pem(&cert, &key).unwrap();
    assert!(issuer.issue_at(&mut SerialCounter::new(), "a", NOW, today()).is_ok());
}

#[test]
fn outcomes_of_generating_a_key_are_told_apart() {
    let (issuer, mut serials) = issuer();
    let profile = leaf_profile("a", NOW, 9);
    let key = || rcgen::KeyPair::generate().map(|key| key.serialize_pem());
    let no = Err(rcgen::Error::RingUnspecified);
    let error = issuer.sign_leaf(&profile, no, 9, today()).unwrap_err();
    assert_eq!(error, IssueError::LeafKey);
    let pem = key().unwrap();
    let bundle = issuer.sign_leaf(&profile, Ok(pem.clone()), 9, today()).unwrap();
    assert_eq!((bundle.key_pem, bundle.serial.as_str()), (pem, "0000000000000009"));
    let (_, authority_key) = generate_ca().unwrap();
    let unreadable = Issuer::from_pem("no certificate", &authority_key).unwrap();
    let error = unreadable.sign_leaf(&profile, key(), 9, today()).unwrap_err();
    assert_eq!(error, IssueError::CaCertificate);
    let foreign = leaf_profile("f\u{fc}r", NOW, 9);
    let error = issuer.sign_leaf(&foreign, key(), 9, today()).unwrap_err();
    assert_eq!(error, IssueError::Params);
    let no = Err(rcgen::Error::RingUnspecified);
    let error = issuer.sign_leaf(&foreign, no, 9, today()).unwrap_err();
    assert_eq!(error, IssueError::Params);
    assert!(issuer.issue(&mut serials, "a").is_ok());
}

/// An authority with the given parameters.
fn authority(params: CertificateParams) -> Issuer {
    let key = rcgen::KeyPair::generate().unwrap();
    let cert = params.self_signed(&key).unwrap().pem();
    Issuer::from_pem(&cert, &key.serialize_pem()).unwrap()
}

/// An authority whose certificate holds `new` in the place of `old`.
fn patched(params: CertificateParams, old: &[u8], new: &[u8]) -> Issuer {
    let key = rcgen::KeyPair::generate().unwrap();
    let mut der = params.self_signed(&key).unwrap().der().to_vec();
    let places: Vec<usize> = (0..der.len() - old.len()).filter(|i| der[*i..].starts_with(old)).collect();
    assert!(!places.is_empty());
    for i in places {
        der[i..i + old.len()].copy_from_slice(new);
    }
    let digits = base64(&der);
    let cert = format!("-----BEGIN CERTIFICATE-----\n{digits}\n-----END CERTIFICATE-----\n");
    Issuer::from_pem(&cert, &key.serialize_pem()).unwrap()
}

fn base64(bytes: &[u8]) -> String {
    let digits = b"ABCDEFGHIJKLMNOPQRSTUVWXYZabcdefghijklmnopqrstuvwxyz0123456789+/";
    let mut out = String::new();
    for chunk in bytes.chunks(3) {
        let mut n = 0u32;
        for i in 0..3 {
            n = n << 8 | *chunk.get(i).unwrap_or(&0) as u32;
        }
        for i in 0..4 {
            let digit = digits[(n >> (18 - 6 * i) & 63) as usize] as char;
            out.push(if i <= chunk.len() { digit } else { '=' });
        }
    }
    out
}

fn root() -> CertificateParams {
    let mut params = CertificateParams::new(Vec::new()).unwrap();
    params.is_ca = IsCa::Ca(BasicConstraints::Unconstrained);
    params
}

#[test]
fn subjects_must_be_writable() {
    let mut serials = SerialCounter::new();
    let mut issue = |issuer: Issuer| issuer.issue_at(&mut serials, "a", NOW, today());
    let mut params = root();
    params.distinguished_name.push(DnType::CustomDnType(vec![2, 39, 3]), "x");
    assert!(issue(authority(params.clone())).is_ok());
    // The object identifier 2.40.3 is read as 3.0.3.
    let unwritable = patched(params, &[6, 2, 119, 3], &[6, 2, 120, 3]);
    assert_eq!(issue(unwritable).unwrap_err(), IssueError::CaCertificate);

    let mut params = root();
    let printable = |text: &str| DnValue::PrintableString(text.try_into().unwrap());
    params.distinguished_name.push(DnType::LocalityName, printable("Here: (a=b)"));
    assert!(issue(authority(params.clone())).is_ok());
    let unwritable = patched(params, b"Here:", b"Here?");
    assert_eq!(issue(unwritable).unwrap_err(), IssueError::CaCertificate);
    let mut params = root();
    params.distinguished_name.push(DnType::LocalityName, "Here? *");
    assert!(issue(authority(params)).is_ok());
}

#[test]
fn authorities_may_have_names_usages_and_constraints() {
    let mut serials = SerialCounter::new();
    let mut params = root();
    let other = (vec![2, 39, 3], rcgen::OtherNameValue::from("x"));
    params.subject_alt_names.push(SanType::OtherName(other));
    params.subject_alt_names.push(SanType::URI("https://a".try_into().unwrap()));
    params.extended_key_usages.push(ExtendedKeyUsagePurpose::CodeSigning);
    params.name_constraints = Some(rcgen::NameConstraints {
        permitted_subtrees: vec![rcgen::GeneralSubtree::DnsName("a".to_string())],
        excluded_subtrees: Vec::new(),
    });
    assert!(authority(params).issue_at(&mut serials, "a", NOW, today()).is_ok());
}
