use securenet::attestation::{attest, check_secure_boot, generate_quote, machine_id, SecureBootState};
use securenet::encoding::HexError;
use securenet::errors::AppError;

const ABC_DIGEST: &str = "ba7816bf8f01cfea414140de5dae2223b00361a396177a9cb410ff61f20015ad";

#[test]
fn secure_boot_is_read_from_the_fifth_byte() {
    assert_eq!(check_secure_boot(Some(&[6, 0, 0, 0, 1])), SecureBootState::Enabled);
    assert_eq!(check_secure_boot(Some(&[6, 0, 0, 0, 0])), SecureBootState::Disabled);
    assert_eq!(check_secure_boot(Some(&[6, 0, 0, 0, 2])), SecureBootState::Disabled);
    assert_eq!(check_secure_boot(Some(&[6, 0, 0, 0, 1, 9])), SecureBootState::Enabled);
    assert_eq!(check_secure_boot(Some(&[6, 0, 0, 1])), SecureBootState::Unavailable);
    assert_eq!(check_secure_boot(None), SecureBootState::Unavailable);
}

#[test]
fn secure_boot_states_have_words() {
    assert_eq!(SecureBootState::Enabled.text(), "enabled");
    assert_eq!(SecureBootState::Disabled.text(), "disabled");
    assert_eq!(SecureBootState::Unavailable.text(), "unavailable");
}

#[test]
fn machine_ids_are_trimmed() {
    assert_eq!(machine_id(Ok("abc123\n".to_string())).unwrap(), "abc123");
    match machine_id(Err("denied".to_string())) {
        Err(AppError::Internal(why)) => assert_eq!(why, "cannot read /etc/machine-id: denied"),
        other => panic!("{other:?}"),
    }
}

#[test]
fn quotes_are_digests_of_the_nonce() {
    let (quote, key) = generate_quote(b"abc").unwrap();
    assert_eq!(hex::encode(quote), ABC_DIGEST);
    assert_eq!(key, b"DEV_MODE_NO_TPM");
}

#[test]
fn requests_quote_the_nonce() {
    let request = attest("user-service", Ok(" m1\n".to_string()), "616263").unwrap();
    assert_eq!(request.service_name, "user-service");
    assert_eq!(request.machine_id, "m1");
    assert_eq!(request.nonce, "616263");
    assert_eq!(request.tpm_quote, ABC_DIGEST);
    assert_eq!(request.ak_pub, hex::encode(b"DEV_MODE_NO_TPM"));
}

#[test]
fn upper_case_nonces_are_read_and_kept() {
    let request = attest("s", Err("gone".to_string()), "4A4b").unwrap();
    assert_eq!(request.machine_id, "unknown");
    assert_eq!(request.nonce, "4A4b");
    assert_eq!(request.tpm_quote, hex::encode(<sha2::Sha256 as sha2::Digest>::digest(b"JK")));
}

#[test]
fn bad_nonces_are_told_apart() {
    match attest("s", Ok(String::new()), "abc") {
        Err(HexError::OddLength) => {}
        other => panic!("{other:?}"),
    }
    match attest("s", Ok(String::new()), "abzz") {
        Err(HexError::InvalidCharacter { c: 'z', index: 2 }) => {}
        other => panic!("{other:?}"),
    }
}
