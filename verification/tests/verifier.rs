use securenet::attestation::attest;
use securenet::models::UnsealRequest;
use securenet::vault::attestation_verifier::{
    allowlist_from, verify, verify_at, Allowlist, NonceStore, Rejection, TomlMember, NONCE_TTL_NANOS,
};

fn allow(ids: &[&str]) -> Allowlist {
    Allowlist { machine_ids: ids.iter().map(|s| s.to_string()).collect() }
}

fn request(machine: &str, nonce: &[u8]) -> UnsealRequest {
    attest("svc", Ok(machine.to_string()), &hex::encode(nonce)).unwrap()
}

fn message(r: Result<(), Rejection>) -> String {
    r.unwrap_err().message()
}

#[test]
fn allowlist_contains_what_it_lists() {
    assert!(allow(&["a", "b"]).contains("b"));
    assert!(!allow(&["a", "b"]).contains("c"));
    assert!(!allow(&[]).contains(""));
}

#[test]
fn dev_stands_for_every_machine() {
    assert!(allow(&["a", "dev"]).contains("anything"));
    assert!(!allow(&["developer"]).contains("anything"));
}

#[test]
fn allowlist_is_read_from_toml() {
    let list = Allowlist::from_toml("machine_ids = [\"a\", \"b\"]\nother = 1\n").unwrap();
    assert_eq!(list.machine_ids, vec!["a".to_string(), "b".to_string()]);
    assert!(Allowlist::from_toml("machine_ids = []").unwrap().machine_ids.is_empty());
}

#[test]
fn bad_allowlists_are_refused() {
    assert_eq!(Allowlist::from_toml("x = 1").unwrap_err(), "missing field `machine_ids`");
    assert_eq!(
        Allowlist::from_toml("machine_ids = 1").unwrap_err(),
        "invalid type of `machine_ids`, expected a sequence"
    );
    assert_eq!(
        Allowlist::from_toml("machine_ids = [\"a\", 1]").unwrap_err(),
        "invalid type in `machine_ids`, expected a string"
    );
    assert!(Allowlist::from_toml("machine_ids = [").is_err());
    assert_eq!(allowlist_from(Err("broken".to_string())).unwrap_err(), "broken");
    assert!(allowlist_from(Ok(TomlMember::Absent)).is_err());
}

#[test]
fn nonces_last_thirty_seconds() {
    let mut store = NonceStore::new();
    store.register_at(vec![1], 1000);
    assert!(store.consume_at(&[1], 1000 + NONCE_TTL_NANOS - 1));
    store.register_at(vec![2], 1000);
    assert!(!store.consume_at(&[2], 1000 + NONCE_TTL_NANOS));
}

#[test]
fn nonces_are_used_once() {
    let mut store = NonceStore::new();
    store.register_at(vec![1], 0);
    assert!(store.consume_at(&[1], 1));
    assert!(!store.consume_at(&[1], 2));
    assert!(!store.consume_at(&[9], 2));
}

#[test]
fn registering_drops_expired_nonces_only() {
    let mut store = NonceStore::new();
    store.register_at(vec![1], 0);
    store.register_at(vec![2], 5);
    store.register_at(vec![3], NONCE_TTL_NANOS);
    assert!(!store.consume_at(&[1], 6));
    assert!(store.consume_at(&[2], 6));
    assert!(store.consume_at(&[3], NONCE_TTL_NANOS));
}

#[test]
fn registering_again_renews_a_nonce() {
    let mut store = NonceStore::new();
    store.register_at(vec![1], 0);
    store.register_at(vec![1], 10);
    assert!(store.consume_at(&[1], NONCE_TTL_NANOS + 5));
    assert!(!store.consume_at(&[1], NONCE_TTL_NANOS + 5));
}

#[test]
fn nonces_follow_the_clock() {
    let mut store = NonceStore::new();
    store.register(vec![1]);
    assert!(store.consume(&[1]));
    assert!(!store.consume(&[1]));
}

#[test]
fn attested_requests_are_accepted_once() {
    let mut store = NonceStore::new();
    store.register(b"nonce".to_vec());
    let r = request("m1", b"nonce");
    assert!(verify(&r, &allow(&["m1"]), &mut store).is_ok());
    assert_eq!(
        message(verify(&r, &allow(&["m1"]), &mut store)),
        "nonce is invalid, expired, or already used"
    );
}

#[test]
fn used_nonces_stay_used_whatever_follows() {
    let mut store = NonceStore::new();
    let list = allow(&["m1"]);
    store.register_at(b"nonce".to_vec(), 0);
    let r = request("m1", b"nonce");
    assert!(verify_at(&r, &list, &mut store, 1).is_ok());
    store.register_at(b"other".to_vec(), 2);
    assert!(matches!(verify_at(&r, &list, &mut store, 3), Err(Rejection::NonceRefused)));
    assert!(verify_at(&request("m1", b"other"), &list, &mut store, 4).is_ok());
    assert!(matches!(verify_at(&r, &list, &mut store, 5), Err(Rejection::NonceRefused)));
    store.register_at(b"nonce".to_vec(), 6);
    assert!(verify_at(&r, &list, &mut store, 7).is_ok());
}

#[test]
fn waiting_nonces_stay_good_whatever_happens_to_others() {
    let mut store = NonceStore::new();
    let list = allow(&["m1"]);
    store.register_at(b"nonce".to_vec(), 10);
    store.register_at(b"other".to_vec(), 20);
    assert!(verify_at(&request("m1", b"other"), &list, &mut store, 30).is_ok());
    assert!(verify_at(&request("m1", b"none"), &list, &mut store, 40).is_err());
    store.register_at(b"late".to_vec(), NONCE_TTL_NANOS + 9);
    let r = request("m1", b"nonce");
    assert!(verify_at(&r, &list, &mut store, NONCE_TTL_NANOS + 9).is_ok());
}

#[test]
fn unknown_machines_are_refused_and_keep_the_nonce() {
    let mut store = NonceStore::new();
    store.register_at(b"nonce".to_vec(), 0);
    let r = request("m2", b"nonce");
    assert_eq!(
        message(verify_at(&r, &allow(&["m1"]), &mut store, 1)),
        "machine_id 'm2' not in allowlist"
    );
    assert!(verify_at(&r, &allow(&["m2"]), &mut store, 1).is_ok());
}

#[test]
fn missing_and_unreadable_nonces_are_refused() {
    let mut store = NonceStore::new();
    let mut r = request("m1", b"nonce");
    r.nonce = String::new();
    assert_eq!(message(verify_at(&r, &allow(&["m1"]), &mut store, 1)), "nonce is required");
    r.nonce = "xyz".to_string();
    assert_eq!(message(verify_at(&r, &allow(&["m1"]), &mut store, 1)), "nonce is not valid hex");
}

#[test]
fn expired_nonces_are_refused() {
    let mut store = NonceStore::new();
    store.register_at(b"nonce".to_vec(), 0);
    let r = request("m1", b"nonce");
    assert_eq!(
        message(verify_at(&r, &allow(&["m1"]), &mut store, NONCE_TTL_NANOS)),
        "nonce is invalid, expired, or already used"
    );
}

#[test]
fn wrong_quotes_are_refused_and_use_the_nonce_up() {
    let mut store = NonceStore::new();
    store.register_at(b"nonce".to_vec(), 0);
    let mut r = request("m1", b"nonce");
    let good = r.tpm_quote.clone();
    r.tpm_quote = good.to_uppercase();
    assert_eq!(
        message(verify_at(&r, &allow(&["m1"]), &mut store, 1)),
        "TPM quote verification failed"
    );
    r.tpm_quote = good;
    assert!(verify_at(&r, &allow(&["m1"]), &mut store, 1).is_err());
}

#[test]
fn missing_quotes_are_let_through() {
    let mut store = NonceStore::new();
    store.register_at(b"nonce".to_vec(), 0);
    let mut r = request("m1", b"nonce");
    r.tpm_quote = String::new();
    assert!(verify_at(&r, &allow(&["m1"]), &mut store, 1).is_ok());
}
