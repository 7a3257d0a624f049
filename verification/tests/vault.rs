use securenet::attestation::attest;
use securenet::clock::Timestamp;
use securenet::errors::AppError;
use securenet::models::{CertBundle, IssuanceLogEntry, UnsealRequest};
use securenet::vault::attestation_verifier::Allowlist;
use securenet::vault::issuer::{generate_ca, IssueError, Issuer};
use securenet::vault::log::{append, framed, AppendAction, AppendEvent, IssuanceLog};
use securenet::vault::routes;
use securenet::vault::state::{AppState, Moment};

fn vault_with(cert: &str, key: &str) -> AppState {
    AppState::new(
        Issuer::from_pem(cert, key).unwrap(),
        IssuanceLog::open("/tmp/issuance.log"),
        Allowlist { machine_ids: vec!["m1".to_string()] },
    )
}

fn vault() -> AppState {
    let (cert, key) = generate_ca().unwrap();
    vault_with(&cert, &key)
}

fn quoted(state: &mut AppState, machine: &str) -> UnsealRequest {
    let nonce = routes::nonce(state).nonce;
    attest("user-service", Ok(machine.to_string()), &nonce).unwrap()
}

fn at(secs: i64) -> Timestamp {
    Timestamp { secs, nanos: 0 }
}

fn reason(entry: &IssuanceLogEntry) -> Option<&str> {
    entry.reason.as_deref()
}

#[test]
fn nonces_are_32_random_bytes_in_hex() {
    let mut state = vault();
    let a = routes::nonce(&mut state).nonce;
    let b = routes::nonce(&mut state).nonce;
    assert_eq!(a.len(), 64);
    assert_eq!(hex::decode(&a).unwrap().len(), 32);
    assert_ne!(a, b);
    assert_ne!(a, "0".repeat(64));
    assert_eq!(state.fresh_nonce().len(), 32);
}

#[test]
fn unsealing_grants_logs_and_counts() {
    let mut state = vault();
    let request = quoted(&mut state, "m1");
    let bundle = routes::unseal(&mut state, &request).unwrap().bundle;
    assert_eq!(bundle.serial, "0000000000000001");
    assert_eq!(routes::health(&state).issued, 1);
    let log = state.take_log();
    assert_eq!(log.len(), 1);
    assert!(log[0].granted && log[0].reason.is_none());
    assert_eq!(log[0].service_name, "user-service");
    assert_eq!(log[0].machine_id, "m1");
    assert_eq!(log[0].cert_serial, bundle.serial);
    assert_eq!(log[0].expires_at, bundle.expires_at);
    assert!(state.take_log().is_empty());
}

#[test]
fn serial_numbers_go_on_with_another_authority() {
    let mut state = vault();
    let request = quoted(&mut state, "m1");
    let first = routes::unseal(&mut state, &request).unwrap().bundle.serial;
    let (cert, key) = generate_ca().unwrap();
    state.issuer = Issuer::from_pem(&cert, &key).unwrap();
    let request = quoted(&mut state, "m1");
    let second = routes::unseal(&mut state, &request).unwrap().bundle.serial;
    assert!(first < second);
}

#[test]
fn renewing_goes_through_the_same_checks() {
    let mut state = vault();
    let first = quoted(&mut state, "m1");
    assert!(routes::unseal(&mut state, &first).is_ok());
    let second = quoted(&mut state, "m1");
    let bundle = routes::renew(&mut state, &second).unwrap().bundle;
    assert_eq!(bundle.serial, "0000000000000002");
    assert_eq!(state.issued_count(), 2);
    assert!(routes::renew(&mut state, &second).is_err());
    assert_eq!(state.take_log().len(), 3);
}

#[test]
fn refusals_are_answered_and_logged() {
    let mut state = vault();
    let request = quoted(&mut state, "m2");
    let error = routes::unseal(&mut state, &request).unwrap_err();
    assert_eq!(error.status_code(), 503);
    assert_eq!(
        error.message(),
        "vault rejected unseal request: machine_id 'm2' not in allowlist"
    );
    assert_eq!(state.issued_count(), 0);
    let log = state.take_log();
    assert_eq!(log.len(), 1);
    assert!(!log[0].granted);
    assert_eq!(reason(&log[0]), Some("machine_id 'm2' not in allowlist"));
    assert_eq!(log[0].cert_serial, "");
}

#[test]
fn refused_renewals_are_logged_too() {
    let mut state = vault();
    let mut request = quoted(&mut state, "m1");
    request.nonce = String::new();
    assert!(routes::renew(&mut state, &request).is_err());
    let log = state.take_log();
    assert_eq!(reason(&log[0]), Some("nonce is required"));
}

#[test]
fn one_nonce_gives_one_certificate() {
    let mut state = vault();
    let request = quoted(&mut state, "m1");
    assert!(routes::unseal(&mut state, &request).is_ok());
    match routes::unseal(&mut state, &request) {
        Err(AppError::VaultRejected(why)) => {
            assert_eq!(why, "nonce is invalid, expired, or already used")
        }
        other => panic!("{other:?}"),
    }
    assert_eq!(state.issued_count(), 1);
}

#[test]
fn one_nonce_gives_one_certificate_with_others_in_between() {
    let mut state = vault();
    let request = quoted(&mut state, "m1");
    let other = quoted(&mut state, "m1");
    assert!(routes::unseal(&mut state, &request).is_ok());
    assert!(routes::unseal(&mut state, &other).is_ok());
    let _ = quoted(&mut state, "m1");
    state.revoke_cert("0000000000000001".to_string(), "lost".to_string());
    assert!(matches!(
        routes::unseal(&mut state, &request),
        Err(AppError::VaultRejected(_))
    ));
    assert_eq!(state.issued_count(), 2);
    assert!(state.is_revoked("0000000000000001"));
}

#[test]
fn issued_certificates_are_handed_out_logged_and_counted() {
    let mut state = vault();
    let request = quoted(&mut state, "m1");
    let bundle = CertBundle {
        cert_pem: "cert".to_string(),
        key_pem: "key".to_string(),
        ca_pem: "root".to_string(),
        serial: "00000000000000ff".to_string(),
        expires_at: at(1300),
    };
    let response = state.settle_at(&request, Ok(bundle), at(2000)).unwrap();
    assert_eq!(response.bundle.cert_pem, "cert");
    assert_eq!(response.bundle.key_pem, "key");
    assert_eq!(response.bundle.ca_pem, "root");
    assert_eq!(response.bundle.serial, "00000000000000ff");
    assert_eq!(response.bundle.expires_at, at(1300));
    assert_eq!(state.issued_count(), 1);
    let log = state.take_log();
    assert_eq!(log.len(), 1);
    assert!(log[0].granted && log[0].reason.is_none());
    assert_eq!(log[0].service_name, "user-service");
    assert_eq!(log[0].machine_id, "m1");
    assert_eq!(log[0].cert_serial, "00000000000000ff");
    assert_eq!((log[0].timestamp, log[0].expires_at), (at(2000), at(1300)));
}

#[test]
fn certificates_that_could_not_be_issued_change_nothing() {
    let mut state = vault();
    let request = quoted(&mut state, "m1");
    for error in [IssueError::LeafKey, IssueError::Signing] {
        let expected = error.message().to_string();
        match state.settle_at(&request, Err(error), at(2000)) {
            Err(AppError::Internal(why)) => assert_eq!(why, expected),
            other => panic!("{other:?}"),
        }
    }
    assert_eq!(state.issued_count(), 0);
    assert!(state.take_log().is_empty());
    assert!(routes::unseal(&mut state, &request).is_ok());
}

#[test]
fn failures_to_issue_are_internal_and_not_logged() {
    let (_, key) = generate_ca().unwrap();
    let mut state = vault_with("no certificate", &key);
    let request = quoted(&mut state, "m1");
    match routes::unseal(&mut state, &request) {
        Err(AppError::Internal(why)) => assert_eq!(why, "failed to parse CA cert PEM"),
        other => panic!("{other:?}"),
    }
    assert!(state.take_log().is_empty());
    assert_eq!(state.issued_count(), 0);
}

#[test]
fn requests_are_handled_at_a_given_moment() {
    let mut state = vault();
    state.nonce_store.register_at(b"n".to_vec(), 0);
    let request = attest("s", Ok("m1".to_string()), &hex::encode(b"n")).unwrap();
    let moment = Moment {
        nonce_clock: 1,
        cert_clock: 1_700_000_000,
        today: at(1000),
        logged: at(2000),
        logged_expiry: at(3000),
    };
    let bundle = state.admit_at(&request, moment).unwrap().bundle;
    assert_eq!(bundle.expires_at, at(1300));
    assert!(state.admit_at(&request, moment).is_err());
    let log = state.take_log();
    assert_eq!((log[0].timestamp, log[0].expires_at), (at(2000), at(1300)));
    assert_eq!((log[1].timestamp, log[1].expires_at), (at(2000), at(3000)));
}

#[test]
fn revoked_serials_are_listed() {
    let mut state = vault();
    assert!(routes::crl(&state).is_empty());
    let reply =
        routes::revoke(&mut state, Some("01".to_string()), Some("lost".to_string())).unwrap();
    assert_eq!((reply.revoked.as_str(), reply.reason.as_str()), ("01", "lost"));
    let reply = routes::revoke(&mut state, Some("02".to_string()), None).unwrap();
    assert_eq!(reply.reason, "no reason given");
    routes::revoke(&mut state, Some("01".to_string()), None).unwrap();
    let mut list = routes::crl(&state);
    list.sort();
    assert_eq!(list, vec!["01", "02"]);
    assert!(state.is_revoked("01") && state.is_revoked("02") && !state.is_revoked("03"));
}

#[test]
fn revocations_need_a_serial() {
    let mut state = vault();
    let error = routes::revoke(&mut state, None, Some("x".to_string())).unwrap_err();
    assert_eq!(error.message(), "internal error: missing serial field");
    assert!(state.revocation_list().is_empty());
}

#[test]
fn counting_gives_the_count() {
    let mut state = vault();
    assert_eq!(state.increment_issued(), 1);
    assert_eq!(state.issued_count(), 1);
    assert_eq!(state.increment_issued(), 2);
    assert_eq!(state.issued_count(), 2);
}

#[test]
fn vault_health() {
    let health = routes::health(&vault());
    assert_eq!((health.status, health.service, health.issued), ("ok", "vault-service", 0));
}

#[test]
fn log_entries_wait_in_order() {
    let mut log = IssuanceLog::open("/var/log/vault/issuance.log");
    assert_eq!(log.path(), "/var/log/vault/issuance.log");
    log.record_grant("a", "m", "01", at(5));
    log.record_rejection("b", "m", "no");
    let entries = log.take_pending();
    assert_eq!(entries.len(), 2);
    assert!(entries[0].granted && !entries[1].granted);
    assert_eq!((entries[0].expires_at, reason(&entries[1])), (at(5), Some("no")));
    assert!(entries[0].timestamp.secs > 1_600_000_000);
}

#[test]
fn log_lines_end_in_a_newline() {
    assert_eq!(framed("{}"), "{}\n");
}

#[test]
fn log_entries_are_written_step_by_step() {
    let text = match append(AppendEvent::Serialized(Ok("{}".to_string()))) {
        AppendAction::MakeDir(line) => line,
        other => panic!("{other:?}"),
    };
    let text = match append(AppendEvent::DirMade { line: text, outcome: Ok(()) }) {
        AppendAction::Open(line) => line,
        other => panic!("{other:?}"),
    };
    match append(AppendEvent::Opened { line: text, outcome: Ok(()) }) {
        AppendAction::Write(line) => assert_eq!(line, "{}\n"),
        other => panic!("{other:?}"),
    }
    assert!(matches!(append(AppendEvent::Written(Ok(()))), AppendAction::Done));
}

#[test]
fn log_failures_go_no_further() {
    let no = || "no".to_string();
    let steps = vec![
        (AppendEvent::Serialized(Err(no())), "issuance_log.serialize_failed"),
        (AppendEvent::DirMade { line: no(), outcome: Err(no()) }, "issuance_log.mkdir_failed"),
        (AppendEvent::Opened { line: no(), outcome: Err(no()) }, "issuance_log.open_failed"),
        (AppendEvent::Written(Err(no())), "issuance_log.write_failed"),
    ];
    for (event, expected) in steps {
        match append(event) {
            AppendAction::GiveUp { what, why } => assert_eq!((what, why.as_str()), (expected, "no")),
            other => panic!("{other:?}"),
        }
    }
}
