use securenet::boot::{run, run_gateway, start_at};
use securenet::clock::Timestamp;
use securenet::errors::AppError;
use securenet::identity::ServiceIdentity;
use securenet::models::CertBundle;
use securenet::rotation::{
    Retry, RetryAction, RetryEvent, RotatingTlsConfig, Rotation, RotationAction, RotationEvent,
};
use securenet::tls::{
    build_root_store, client_config, gateway_server_config, parse_cert_chain, parse_private_key,
    server_config,
};
use securenet::vault::issuer::{generate_ca, Issuer, SerialCounter};

fn issued() -> (CertBundle, CertBundle) {
    let (cert, key) = generate_ca().unwrap();
    let issuer = Issuer::from_pem(&cert, &key).unwrap();
    let mut serials = SerialCounter::new();
    let first = issuer.issue(&mut serials, "user-service").unwrap();
    (first, issuer.issue(&mut serials, "user-service").unwrap())
}

fn fault() -> AppError {
    AppError::VaultUnreachable("down".to_string())
}

fn sleep(action: RotationAction) -> u64 {
    match action {
        RotationAction::Sleep(secs) => secs,
        other => panic!("{other:?}"),
    }
}

fn cert_parse<T>(r: Result<T, AppError>) -> String {
    match r {
        Err(AppError::CertParse(why)) => why,
        Err(other) => panic!("{other:?}"),
        Ok(_) => panic!("accepted"),
    }
}

fn tls_fault<T>(r: Result<T, AppError>) -> String {
    match r {
        Err(AppError::TlsConfig(why)) => why,
        Err(other) => panic!("{other:?}"),
        Ok(_) => panic!("accepted"),
    }
}

#[test]
fn issued_bundles_make_servers_and_clients() {
    let (bundle, _) = issued();
    assert!(server_config(&bundle).is_ok());
    assert!(gateway_server_config(&bundle).is_ok());
    assert!(client_config(&bundle).is_ok());
}

#[test]
fn chains_hold_every_certificate() {
    let (bundle, other) = issued();
    let both = format!("{}{}", bundle.cert_pem, other.cert_pem);
    let chain = parse_cert_chain(&both).unwrap();
    assert_eq!(chain.len(), 2);
    assert_eq!(chain[1], parse_cert_chain(&other.cert_pem).unwrap()[0]);
    assert_eq!(chain[0][0], 0x30);
    assert!(parse_cert_chain("nothing").unwrap().is_empty());
    assert_eq!(build_root_store(&bundle.ca_pem).unwrap().len(), 1);
}

#[test]
fn broken_pem_is_refused() {
    let broken = "-----BEGIN CERTIFICATE-----\n****\n-----END CERTIFICATE-----\n";
    assert!(!cert_parse(parse_cert_chain(broken)).is_empty());
    let (bundle, _) = issued();
    let after = format!("{}{broken}", bundle.cert_pem);
    assert!(!cert_parse(parse_cert_chain(&after)).is_empty());
}

#[test]
fn keys_are_found() {
    let (bundle, _) = issued();
    assert_eq!(cert_parse(parse_private_key(&bundle.cert_pem)), "no private key found in PEM");
    let key = parse_private_key(&format!("{}{}", bundle.cert_pem, bundle.key_pem)).unwrap();
    assert_eq!(key, rcgen::KeyPair::from_pem(&bundle.key_pem).unwrap().serialize_der());
}

#[test]
fn the_certificate_is_looked_at_before_the_key() {
    let (mut bundle, _) = issued();
    bundle.key_pem = String::new();
    assert_eq!(cert_parse(server_config(&bundle)), "no private key found in PEM");
    bundle.cert_pem = "-----BEGIN CERTIFICATE-----\n*\n-----END CERTIFICATE-----\n".to_string();
    assert_ne!(cert_parse(client_config(&bundle)), "no private key found in PEM");
}

#[test]
fn roots_that_are_no_certificates_are_refused() {
    let (mut bundle, _) = issued();
    bundle.ca_pem = "-----BEGIN CERTIFICATE-----\nAAAA\n-----END CERTIFICATE-----\n".to_string();
    assert!(!cert_parse(build_root_store(&bundle.ca_pem)).is_empty());
    assert!(!cert_parse(server_config(&bundle)).is_empty());
    assert!(gateway_server_config(&bundle).is_ok());
}

#[test]
fn servers_need_roots() {
    let (mut bundle, _) = issued();
    bundle.ca_pem = String::new();
    assert_eq!(tls_fault(server_config(&bundle)), "no root trust anchors were provided");
    assert!(client_config(&bundle).is_ok());
    assert!(gateway_server_config(&bundle).is_ok());
}

#[test]
fn keys_of_other_certificates_are_refused() {
    let (mut bundle, other) = issued();
    bundle.key_pem = other.key_pem;
    let why = tls_fault(server_config(&bundle));
    assert_eq!(tls_fault(client_config(&bundle)), why);
    assert_eq!(tls_fault(gateway_server_config(&bundle)), why);
}

#[test]
fn installing_swaps_configuration_and_serial() {
    let (first, second) = issued();
    let mut config = RotatingTlsConfig::new(&first).unwrap();
    assert_eq!(config.current_serial(), "0000000000000001");
    config.install(&second).unwrap();
    assert_eq!(config.current_serial(), "0000000000000002");
    let mut broken = first.clone();
    broken.key_pem = String::new();
    assert!(config.install(&broken).is_err());
    assert_eq!(config.current_serial(), "0000000000000002");
}

#[test]
fn only_services_verify_clients() {
    let (mut bundle, _) = issued();
    assert!(RotatingTlsConfig::new_gateway(&bundle).is_ok());
    bundle.ca_pem = String::new();
    assert!(RotatingTlsConfig::new(&bundle).is_err());
    let mut gateway = RotatingTlsConfig::new_gateway(&bundle).unwrap();
    assert!(gateway.install(&bundle).is_ok());
    let _: &rustls::ServerConfig = gateway.current();
}

#[test]
fn attempts_pause_and_end() {
    let mut retry = Retry::new(3);
    assert!(matches!(retry.retry_renew(RetryEvent::Tried(Err(fault()))), RetryAction::Wait(2)));
    assert!(matches!(retry.retry_renew(RetryEvent::Tried(Err(fault()))), RetryAction::Wait(4)));
    match retry.retry_renew(RetryEvent::Tried(Err(fault()))) {
        RetryAction::Finish(Err(AppError::VaultUnreachable(why))) => {
            assert_eq!(why, "cert renewal failed after 3 attempts")
        }
        other => panic!("{other:?}"),
    }
}

#[test]
fn without_attempts_nothing_is_tried() {
    match Retry::new(0).retry_renew(RetryEvent::Ready) {
        RetryAction::Finish(Err(AppError::VaultUnreachable(why))) => {
            assert_eq!(why, "cert renewal failed after 0 attempts")
        }
        other => panic!("{other:?}"),
    }
    let mut retry = Retry::new(1);
    assert!(matches!(retry.retry_renew(RetryEvent::Ready), RetryAction::Try));
    match retry.retry_renew(RetryEvent::Tried(Err(fault()))) {
        RetryAction::Finish(Err(error)) => assert_eq!(
            error.message(),
            "vault unreachable: cert renewal failed after 1 attempts"
        ),
        other => panic!("{other:?}"),
    }
}

#[test]
fn pauses_double_up_to_the_last() {
    let mut retry = Retry::new(63);
    for i in 1..63u32 {
        match retry.retry_renew(RetryEvent::Tried(Err(fault()))) {
            RetryAction::Wait(secs) => assert_eq!(secs, 1u64 << i),
            other => panic!("{other:?}"),
        }
    }
    assert!(matches!(retry.retry_renew(RetryEvent::Tried(Err(fault()))), RetryAction::Finish(Err(_))));
}

#[test]
fn a_success_ends_the_attempts() {
    let (bundle, _) = issued();
    let mut retry = Retry::new(3);
    match retry.retry_renew(RetryEvent::Tried(Ok(bundle))) {
        RetryAction::Finish(Ok(given)) => assert_eq!(given.serial, "0000000000000001"),
        other => panic!("{other:?}"),
    }
}

#[test]
fn rotation_renews_at_nine_tenths() {
    let (first, second) = issued();
    let mut config = RotatingTlsConfig::new(&first).unwrap();
    let mut rotation = Rotation::new(300);
    assert_eq!(rotation.sleep_secs(), 270);
    assert!(matches!(
        rotation.advance(&mut config, RotationEvent::Slept),
        RotationAction::Renew
    ));
    let now = Timestamp { secs: second.expires_at.secs - 200, nanos: second.expires_at.nanos };
    let action = rotation.advance_at(&mut config, RotationEvent::Renewed(Ok(second)), now);
    assert_eq!(sleep(action), 180);
    assert_eq!(config.current_serial(), "0000000000000002");
    assert_eq!(rotation.sleep_secs(), 180);
}

#[test]
fn failed_renewals_keep_the_configuration_in_use() {
    let (first, second) = issued();
    let mut config = RotatingTlsConfig::new(&first).unwrap();
    let mut rotation = Rotation::new(300);
    let mut fail = || sleep(rotation.advance(&mut config, RotationEvent::Renewed(Err(fault()))));
    assert_eq!((fail(), fail(), fail()), (2, 4, 27));
    assert_eq!((fail(), fail(), fail()), (2, 4, 27));
    assert_eq!(config.current_serial(), "0000000000000001");
    let secs = sleep(rotation.advance(&mut config, RotationEvent::Renewed(Ok(second))));
    assert!((265..=270).contains(&secs), "{secs}");
}

#[test]
fn unusable_certificates_are_not_installed() {
    let (first, mut second) = issued();
    second.key_pem = String::new();
    let mut config = RotatingTlsConfig::new(&first).unwrap();
    let mut rotation = Rotation::new(300);
    let action = rotation.advance(&mut config, RotationEvent::Renewed(Ok(second)));
    assert_eq!(sleep(action), 27);
    assert_eq!(config.current_serial(), "0000000000000001");
}

#[test]
fn services_boot_with_their_certificate() {
    let (bundle, _) = issued();
    let identity = ServiceIdentity::new("user-service");
    let boot = run(identity, "user-service", "http://vault", Ok(bundle)).unwrap();
    assert_eq!(boot.bundle.serial, "0000000000000001");
    assert_eq!(boot.tls_config.current_serial(), "0000000000000001");
    assert_eq!(boot.vault.bundle().unwrap().serial, "0000000000000001");
    assert!((265..=270).contains(&boot.rotation.sleep_secs()));
}

#[test]
fn boot_errors_say_what_failed() {
    let (mut bundle, _) = issued();
    bundle.key_pem = String::new();
    let identity = || ServiceIdentity::new("s");
    let error = run(identity(), "s", "http://vault", Err(fault())).err().unwrap();
    assert_eq!(error.context, "failed to unseal with vault at http://vault");
    assert_eq!(error.cause.message(), "vault unreachable: down");
    let error = run(identity(), "s", "http://vault", Ok(bundle.clone())).err().unwrap();
    assert_eq!(error.context, "failed to build TLS config from cert bundle");
    let error = run_gateway(identity(), "s", "http://vault", Ok(bundle)).err().unwrap();
    assert_eq!(error.context, "failed to build gateway TLS config");
}

#[test]
fn boot_plans_the_first_renewal() {
    let (bundle, _) = issued();
    let now = Timestamp { secs: bundle.expires_at.secs - 100, nanos: bundle.expires_at.nanos };
    let boot =
        start_at(ServiceIdentity::new("g"), "g", "http://vault", Ok(bundle), true, now).unwrap();
    assert_eq!(boot.rotation.sleep_secs(), 90);
}
