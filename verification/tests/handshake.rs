use securenet::clock::Timestamp;
use securenet::errors::AppError;
use securenet::handshake::{VaultAction, VaultEvent};
use securenet::identity::ServiceIdentity;
use securenet::models::CertBundle;
use securenet::vault_client::HttpVaultClient;

const URL: &str = "http://vault:8003";

fn bundle(serial: &str) -> CertBundle {
    CertBundle {
        cert_pem: "cert".to_string(),
        key_pem: "key".to_string(),
        ca_pem: "ca".to_string(),
        expires_at: Timestamp { secs: 1000, nanos: 0 },
        serial: serial.to_string(),
    }
}

fn nonce(reply: Result<Option<&str>, &str>) -> VaultEvent {
    VaultEvent::Nonce {
        host: Ok("m1\n".to_string()),
        reply: reply.map(|n| n.map(String::from)).map_err(String::from),
    }
}

fn unreachable_text(action: VaultAction) -> String {
    match action {
        VaultAction::Finish(Err(AppError::VaultUnreachable(why))) => why,
        other => panic!("{other:?}"),
    }
}

#[test]
fn services_start_locked() {
    let identity = ServiceIdentity::new("user-service");
    assert!(!identity.is_serving());
    assert!(identity.bundle().is_none());
}

#[test]
fn unsealing_step_by_step() {
    let mut identity = ServiceIdentity::new("user-service");
    match identity.unseal(URL, VaultEvent::Start) {
        VaultAction::FetchNonce(url) => assert_eq!(url, "http://vault:8003/vault/nonce"),
        other => panic!("{other:?}"),
    }
    match identity.unseal(URL, nonce(Ok(Some("616263")))) {
        VaultAction::Send { url, request } => {
            assert_eq!(url, "http://vault:8003/vault/unseal");
            assert_eq!(request.service_name, "user-service");
            assert_eq!(request.machine_id, "m1");
            assert_eq!(request.nonce, "616263");
        }
        other => panic!("{other:?}"),
    }
    assert!(matches!(
        identity.unseal(URL, VaultEvent::Answered(Ok(200))),
        VaultAction::ReadBundle
    ));
    assert!(!identity.is_serving());
    match identity.unseal(URL, VaultEvent::Granted(Ok(bundle("07")))) {
        VaultAction::Finish(Ok(given)) => assert_eq!(given.serial, "07"),
        other => panic!("{other:?}"),
    }
    assert!(identity.is_serving());
    assert_eq!(identity.bundle().unwrap().serial, "07");
}

#[test]
fn refusals_lock_the_service() {
    let mut identity = ServiceIdentity::new("s");
    identity.unseal(URL, VaultEvent::Start);
    for status in [199, 300, 403, 500] {
        let action = identity.unseal(URL, VaultEvent::Answered(Ok(status)));
        assert!(matches!(action, VaultAction::ReadText), "{status}");
    }
    for status in [200, 201, 299] {
        let action = identity.unseal(URL, VaultEvent::Answered(Ok(status)));
        assert!(matches!(action, VaultAction::ReadBundle), "{status}");
    }
    match identity.unseal(URL, VaultEvent::Refused("no".to_string())) {
        VaultAction::Finish(Err(AppError::VaultRejected(body))) => assert_eq!(body, "no"),
        other => panic!("{other:?}"),
    }
    assert!(!identity.is_serving());
}

#[test]
fn unsealing_fails_without_the_vault() {
    let mut identity = ServiceIdentity::new("s");
    identity.unseal(URL, VaultEvent::Start);
    let mut fail = |event| unreachable_text(identity.unseal(URL, event));
    assert_eq!(fail(nonce(Err("refused"))), "refused");
    assert_eq!(fail(nonce(Ok(None))), "nonce field missing in vault response");
    assert_eq!(fail(nonce(Ok(Some("abc")))), "bad nonce hex: Odd number of digits");
    assert_eq!(
        fail(nonce(Ok(Some("zz")))),
        "bad nonce hex: Invalid character 'z' at position 0"
    );
    assert_eq!(fail(VaultEvent::Answered(Err("timeout".to_string()))), "timeout");
    assert_eq!(fail(VaultEvent::Granted(Err("no JSON".to_string()))), "no JSON");
    assert!(!identity.is_serving());
}

#[test]
fn renewing_step_by_step() {
    let mut client = HttpVaultClient::new(URL, "order-service", bundle("01"));
    assert_eq!(client.bundle().unwrap().serial, "01");
    match client.renew("order-service", VaultEvent::Start) {
        VaultAction::FetchNonce(url) => assert_eq!(url, "http://vault:8003/vault/nonce"),
        other => panic!("{other:?}"),
    }
    match client.renew("order-service", nonce(Ok(Some("616263")))) {
        VaultAction::Send { url, request } => {
            assert_eq!(url, "http://vault:8003/vault/renew");
            assert_eq!(request.service_name, "order-service");
        }
        other => panic!("{other:?}"),
    }
    client.renew("order-service", VaultEvent::Granted(Ok(bundle("02"))));
    assert_eq!(client.bundle().unwrap().serial, "02");
}

#[test]
fn failed_renewals_keep_the_certificate() {
    let mut client = HttpVaultClient::new(URL, "s", bundle("01"));
    let text = |action| unreachable_text(action);
    assert_eq!(text(client.renew("s", nonce(Ok(None)))), "nonce field missing");
    assert_eq!(text(client.renew("s", nonce(Ok(Some("a"))))), "Odd number of digits");
    client.renew("s", VaultEvent::Refused("no".to_string()));
    assert_eq!(client.bundle().unwrap().serial, "01");
}
