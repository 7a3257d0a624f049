use securenet::errors::AppError;
use securenet::gateway::jwt::{
    accept, claims_for, claims_from, issue, key_files, members_of, Field, JwtKeys, KeyError, UserStore,
};
use securenet::gateway::middleware::{bearer_token, identify, identity_headers, jwt_middleware};
use securenet::gateway::routes::{
    auth_token, auth_token_at, health, proxy_get, proxy_order, proxy_orders, proxy_user,
    proxy_users, token_reply, Answer, AppState, ProxyReply,
};
use securenet::models::{Claims, LoginRequest};

/// The primes of two RSA keys of 2048 bits.
const P1: &str = "\
    fc73dcd5252968a1ca83b354e092098dbd8cf9eb79a130de46832034ba09ec96\
    a0d0e2ff7893da8b540191ddf83e97dbbec8db232b4ee0c9193f46195fd90458\
    8ee8cc31b0690f1702385553ac98646f21e204d76f773ab8d224c20e532f4c4e\
    0fc0902c152c0c62abfa0deb70ca6925e77d45c4a8b0052ac4592dbcccc40949";

const Q1: &str = "\
    cf532305876e9ccc1e131692a27c3e3f26da34a7db6ab9c793c735d0a8fc2766\
    7c16f80c8bf490606b210e391672b71fe7bba386e2d317ef2c083c84657a3389\
    3383379687db73a5237676d573b7176ca308ff870d6dd4ac16fc8514fc845151\
    5e31fdb6fe2a9bb512ad1700b91007d16026704641309cd34dad39041104cda5";

const P2: &str = "\
    dc406ca759f004fd99565c79c1cd36e7a683ab2d59fbf33517dd71dc6ccd8d34\
    26bd872f52ceaa2bc871f0d74eb94ff5062c10f1263fb4b03bb0f9192f957cfc\
    5f0bbff8be9c268516d33c5b6af59d10a04772544067208f2d29cc026451740a\
    f197bf2edede7eb070566a8f3c8862d5bd332a75f6fa15b347d12c818778d707";

const Q2: &str = "\
    d4eea88f8c030f56e89b893ccd4138e27634bf17aef115ef17c1b062cd5a365f\
    13cc612c520e1b8f2c9881a0caf5572daacfeee81bf8f01e595b2460a86970dd\
    ec771a82566d306e64960923d679dacf8ed19e155b977545645581b070e71043\
    e3e98a2e5068c174840b712f7bcaf31abf89c7f2e231c0258beb77991c9d201b";

/// The private and the public key with two primes, in PEM form.
fn pems(p: &str, q: &str) -> (Vec<u8>, Vec<u8>) {
    let number = |digits: &str| rsa::BigUint::parse_bytes(digits.as_bytes(), 16).unwrap();
    let key = rsa::RsaPrivateKey::from_p_q(number(p), number(q), rsa::BigUint::from(65537u32)).unwrap();
    let end = rsa::pkcs8::LineEnding::LF;
    let private = rsa::pkcs8::EncodePrivateKey::to_pkcs8_pem(&key, end).unwrap();
    let public = rsa::pkcs8::EncodePublicKey::to_public_key_pem(&key.to_public_key(), end).unwrap();
    (private.as_bytes().to_vec(), public.into_bytes())
}

fn keys() -> JwtKeys {
    JwtKeys::load_or_generate(Some(pems(P1, Q1))).unwrap()
}

fn texts(items: &[&str]) -> Vec<String> {
    items.iter().map(|s| s.to_string()).collect()
}

fn invalid(r: Result<Claims, AppError>) -> String {
    match r {
        Err(AppError::AuthInvalidToken(why)) => why,
        other => panic!("{other:?}"),
    }
}

fn members(iss: Field, roles: Field) -> Vec<(String, Field)> {
    vec![
        ("exp".to_string(), Field::Number(Some(7))),
        ("iat".to_string(), Field::Number(Some(5))),
        ("iss".to_string(), iss),
        ("roles".to_string(), roles),
        ("sub".to_string(), Field::Text("alice".to_string())),
    ]
}

fn roles() -> Field {
    Field::List(vec![Some("user".to_string()), Some("admin".to_string())])
}

fn state() -> AppState {
    AppState {
        jwt_keys: keys(),
        user_store: UserStore::seeded().unwrap(),
        user_svc_url: "https://users:8001".to_string(),
        order_svc_url: "https://orders:8002".to_string(),
    }
}

fn login(username: &str, password: &str) -> LoginRequest {
    LoginRequest { username: username.to_string(), password: password.to_string() }
}

#[test]
fn claims_name_user_roles_and_issuer() {
    let claims = claims_for("alice", texts(&["user"]), 1000);
    assert_eq!(claims.sub, "alice");
    assert_eq!((claims.iat, claims.exp), (1000, 4600));
    assert_eq!(claims.iss, "securenet-gateway");
    assert_eq!(claims.roles, texts(&["user"]));
    assert_eq!(claims.clone().roles, texts(&["user"]));
}

#[test]
fn claims_are_read_from_members() {
    let claims = claims_from(&members(Field::Text("me".to_string()), roles())).unwrap();
    assert_eq!((claims.sub.as_str(), claims.iat, claims.exp), ("alice", 5, 7));
    assert_eq!(claims.iss, "me");
    assert_eq!(claims.roles, texts(&["user", "admin"]));
}

#[test]
fn members_must_be_there_and_fit() {
    let iss = || Field::Text("me".to_string());
    let bad = |name: &str| format!("JSON error: missing or invalid field `{name}`");
    assert_eq!(invalid(claims_from(&members(Field::Other, roles()))), bad("iss"));
    assert_eq!(invalid(claims_from(&members(iss(), iss()))), bad("roles"));
    let list = Field::List(vec![Some("user".to_string()), None]);
    assert_eq!(invalid(claims_from(&members(iss(), list))), bad("roles"));
    assert_eq!(invalid(claims_from(&Vec::new())), bad("sub"));
    let mut fraction = members(iss(), roles());
    fraction[1].1 = Field::Number(None);
    assert_eq!(invalid(claims_from(&fraction)), bad("iat"));
    fraction.remove(1);
    assert_eq!(invalid(claims_from(&fraction)), bad("iat"));
    let mut late = members(iss(), roles());
    late[0].1 = Field::Text("7".to_string());
    assert_eq!(invalid(claims_from(&late)), bad("exp"));
}

#[test]
fn outcomes_of_signing_and_decoding_are_passed_on() {
    assert_eq!(issue(Ok("t".to_string())).unwrap(), "t");
    assert_eq!(issue(Err("no".to_string())).unwrap_err().message(), "internal error: no");
    let read = || Ok(members(Field::Text("me".to_string()), roles()));
    let late = || Err("late".to_string());
    assert_eq!(invalid(accept(Err("no".to_string()), Ok(()))), "no");
    assert_eq!(invalid(accept(Err("no".to_string()), late())), "no");
    assert_eq!(accept(read(), Ok(())).unwrap().sub, "alice");
    assert_eq!(invalid(accept(read(), late())), "late");
    let bad = "JSON error: missing or invalid field `sub`";
    assert_eq!(invalid(accept(Ok(Vec::new()), Ok(()))), bad);
    assert_eq!(invalid(accept(Ok(Vec::new()), late())), bad);
}

#[test]
fn outcomes_of_generating_and_hashing_are_passed_on() {
    match JwtKeys::from_generated(Err("no".to_string())) {
        Err(KeyError::Generate(why)) => assert_eq!(why, "no"),
        _ => panic!("keys"),
    }
    assert!(JwtKeys::from_generated(Ok((Vec::new(), Vec::new()))).is_err());
    let hash = || Ok("hash".to_string());
    let no = |why: &str| Err(why.to_string());
    let store = UserStore::seeded_with(hash(), hash()).unwrap();
    assert_eq!(store.authenticate("alice", "hunter2"), None);
    assert_eq!(UserStore::seeded_with(no("a"), no("b")).err().unwrap().message(), "internal error: a");
    assert_eq!(UserStore::seeded_with(hash(), no("b")).err().unwrap().message(), "internal error: b");
}

#[test]
fn both_key_files_are_needed() {
    let s = || Some("x".to_string());
    assert!(key_files(s(), s()).is_some());
    assert!(key_files(s(), None).is_none());
    assert!(key_files(None, s()).is_none());
}

#[test]
fn keys_must_be_readable() {
    match JwtKeys::from_pem(b"no key".to_vec(), b"no key".to_vec()) {
        Err(KeyError::Private(why)) => assert!(!why.is_empty()),
        _ => panic!("accepted"),
    }
}

#[test]
fn keys_are_loaded_from_files() {
    let (private, public) = pems(P1, Q1);
    match JwtKeys::load_or_generate(Some((private.clone(), b"no key".to_vec()))) {
        Err(KeyError::Public(why)) => assert!(!why.is_empty()),
        _ => panic!("accepted"),
    }
    let keys = JwtKeys::load_or_generate(Some((private, public))).unwrap();
    let token = keys.sign("alice", texts(&["user"])).unwrap();
    assert_eq!(keys.validate(&token).unwrap().sub, "alice");
}

#[test]
fn signed_tokens_are_accepted() {
    let keys = JwtKeys::load_or_generate(None).unwrap();
    let token = keys.sign("alice", texts(&["user", "admin"])).unwrap();
    let claims = keys.validate(&token).unwrap();
    assert_eq!(claims.sub, "alice");
    assert_eq!(claims.iss, "securenet-gateway");
    assert_eq!(claims.exp - claims.iat, 3600);
    assert!((claims.iat - chrono::Utc::now().timestamp()).abs() < 10);
    assert_eq!(claims.roles, texts(&["user", "admin"]));
}

#[test]
fn tokens_carry_the_usual_header_and_members() {
    let keys = keys();
    let token = keys.sign_at("alice", texts(&["user"]), 1000).unwrap();
    assert_eq!(token, keys.sign_at("alice", texts(&["user"]), 1000).unwrap());
    assert_ne!(token, keys.sign_at("alice", texts(&["user"]), 1001).unwrap());
    let header = jsonwebtoken::decode_header(&token).unwrap();
    assert_eq!(header.alg, jsonwebtoken::Algorithm::RS256);
    assert_eq!(token.split('.').count(), 3);
    let mut validation = jsonwebtoken::Validation::new(jsonwebtoken::Algorithm::RS256);
    validation.insecure_disable_signature_validation();
    validation.validate_exp = false;
    let key = jsonwebtoken::DecodingKey::from_secret(&[]);
    let body: serde_json::Map<String, serde_json::Value> =
        jsonwebtoken::decode(&token, &key, &validation).unwrap().claims;
    let names: Vec<&String> = body.keys().collect();
    assert_eq!(names, vec!["sub", "iat", "exp", "iss", "roles"]);
}

/// Keys for which `validate` reads tokens, and the key that signs them.
fn signing_keys() -> (JwtKeys, jsonwebtoken::EncodingKey) {
    let (private, public) = pems(P1, Q1);
    let signing = jsonwebtoken::EncodingKey::from_rsa_pem(&private).unwrap();
    (JwtKeys::from_pem(private, public).unwrap(), signing)
}

#[test]
fn signed_tokens_are_still_looked_at() {
    let (keys, signing) = signing_keys();
    let header = jsonwebtoken::Header::new(jsonwebtoken::Algorithm::RS256);
    let check = |change: &dyn Fn(&mut serde_json::Map<String, serde_json::Value>)| {
        let mut body = serde_json::Map::new();
        body.insert("sub".to_string(), "alice".into());
        body.insert("iat".to_string(), 5.into());
        body.insert("exp".to_string(), (chrono::Utc::now().timestamp() + 100).into());
        body.insert("iss".to_string(), "securenet-gateway".into());
        body.insert("roles".to_string(), texts(&["user"]).into());
        change(&mut body);
        keys.validate(&jsonwebtoken::encode(&header, &body, &signing).unwrap())
    };
    let set = |name: &'static str, value: serde_json::Value| {
        move |body: &mut serde_json::Map<String, serde_json::Value>| {
            body.insert(name.to_string(), value.clone());
        }
    };
    assert_eq!(check(&|_| {}).unwrap().iat, 5);
    assert_eq!(invalid(check(&set("iss", "other".into()))), "InvalidIssuer");
    assert_eq!(invalid(check(&set("exp", 5.into()))), "ExpiredSignature");
    assert_eq!(invalid(check(&set("aud", "someone".into()))), "InvalidAudience");
    let bad = "JSON error: missing or invalid field `sub`";
    assert_eq!(invalid(check(&set("sub", 7.into()))), bad);
    // A member that does not fit is found before the expiry.
    let both = |body: &mut serde_json::Map<String, serde_json::Value>| {
        body.insert("sub".to_string(), 7.into());
        body.insert("exp".to_string(), 5.into());
    };
    assert_eq!(invalid(check(&both)), bad);
}

#[test]
fn expired_and_foreign_tokens_are_refused() {
    let keys = keys();
    let old = keys.sign_at("alice", texts(&[]), 1_000_000).unwrap();
    assert_eq!(invalid(keys.validate(&old)), "ExpiredSignature");
    assert_eq!(invalid(keys.validate("no token")), "InvalidToken");
    let other = JwtKeys::load_or_generate(Some(pems(P2, Q2))).unwrap();
    let token = other.sign("alice", texts(&[])).unwrap();
    assert_eq!(invalid(keys.validate(&token)), "InvalidSignature");
}

#[test]
fn tokens_last_an_hour_and_a_minute() {
    let keys = keys();
    let age = |secs: i64| {
        let now = chrono::Utc::now().timestamp() - secs;
        keys.validate(&keys.sign_at("alice", texts(&["user"]), now).unwrap())
    };
    for secs in [-100, 0, 3599, 3600, 3650] {
        assert_eq!(age(secs).unwrap().sub, "alice");
    }
    for secs in [3661, 3670, 100_000] {
        assert_eq!(invalid(age(secs)), "ExpiredSignature");
    }
}

#[test]
fn members_come_in_the_order_of_the_claims() {
    let members = members_of(&claims_for("alice", texts(&["user", "admin"]), 1000));
    let names: Vec<&str> = members.iter().map(|member| member.0.as_str()).collect();
    assert_eq!(names, vec!["sub", "iat", "exp", "iss", "roles"]);
    let claims = claims_from(&members).unwrap();
    assert_eq!((claims.sub.as_str(), claims.iat, claims.exp), ("alice", 1000, 4600));
    assert_eq!(claims.roles, texts(&["user", "admin"]));
}

#[test]
fn hashes_name_their_cost() {
    assert!(bcrypt::hash("x", 4).unwrap().starts_with("$2b$04$"));
    assert!(bcrypt::hash("x", 12).unwrap().starts_with("$2b$12$"));
}

#[test]
fn seeded_users_log_in() {
    let store = UserStore::seeded().unwrap();
    assert_eq!(store.authenticate("alice", "hunter2"), Some(texts(&["user"])));
    assert_eq!(store.authenticate("admin", "admin123"), Some(texts(&["user", "admin"])));
    assert_eq!(store.authenticate("alice", "admin123"), None);
    assert_eq!(store.authenticate("bob", "hunter2"), None);
    assert_eq!(store.authenticate("alice", ""), None);
}

#[test]
fn bearer_tokens_are_taken_from_the_header() {
    assert_eq!(bearer_token(Some("Bearer abc")).unwrap(), "abc");
    for header in [None, Some("Basic abc"), Some("bearer abc"), Some("")] {
        assert!(matches!(bearer_token(header), Err(AppError::AuthMissingToken)));
    }
}

#[test]
fn identity_headers_join_the_roles() {
    let headers = identity_headers(&claims_for("alice", texts(&["user", "admin"]), 0)).unwrap();
    assert_eq!((headers.user_id.as_str(), headers.user_roles.as_str()), ("alice", "user,admin"));
    let headers = identity_headers(&claims_for("\u{e4}\t", texts(&[]), 0)).unwrap();
    assert_eq!((headers.user_id.as_str(), headers.user_roles.as_str()), ("\u{e4}\t", ""));
}

#[test]
fn control_characters_make_no_headers() {
    let error = identity_headers(&claims_for("a\n", texts(&["\n"]), 0)).unwrap_err();
    assert_eq!(error.message(), "internal error: bad sub");
    let error = identity_headers(&claims_for("a", texts(&["b", "\u{7f}"]), 0)).unwrap_err();
    assert_eq!(error.message(), "internal error: bad roles");
}

#[test]
fn validation_errors_are_passed_on() {
    let error = identify(Err(AppError::AuthInvalidToken("x".to_string()))).unwrap_err();
    assert_eq!(error.message(), "JWT validation failed: x");
    assert!(identify(Ok(claims_for("a", texts(&[]), 0))).is_ok());
}

#[test]
fn logins_give_tokens_that_pass() {
    let state = state();
    let reply = auth_token(&state, &login("admin", "admin123")).unwrap();
    assert_eq!((reply.token_type.as_str(), reply.expires_in), ("Bearer", 3600));
    let header = format!("Bearer {}", reply.access_token);
    let headers = jwt_middleware(&state.jwt_keys, Some(&header)).unwrap();
    assert_eq!((headers.user_id.as_str(), headers.user_roles.as_str()), ("admin", "user,admin"));
    let error = jwt_middleware(&state.jwt_keys, Some(&reply.access_token)).unwrap_err();
    assert_eq!(error.status_code(), 401);
    let error = jwt_middleware(&state.jwt_keys, Some("Bearer x")).unwrap_err();
    assert_eq!(error.code(), "AUTH_INVALID_TOKEN");
}

#[test]
fn wrong_credentials_are_refused() {
    let state = state();
    let error = auth_token(&state, &login("alice", "nope")).unwrap_err();
    assert_eq!((error.status_code(), error.code()), (401, "AUTH_BAD_CREDENTIALS"));
    let old = auth_token_at(&state, &login("alice", "hunter2"), 5).unwrap();
    assert!(state.jwt_keys.validate(&old.access_token).is_err());
    assert!(token_reply(Err(AppError::ServiceSealed)).is_err());
}

#[test]
fn requests_are_passed_on_to_the_services() {
    let state = state();
    assert_eq!(proxy_user(&state, "7"), "https://users:8001/users/7");
    assert_eq!(proxy_users(&state), "https://users:8001/users");
    assert_eq!(proxy_order(&state, "7"), "https://orders:8002/orders/7");
    assert_eq!(proxy_orders(&state), "https://orders:8002/orders");
}

#[test]
fn answers_are_passed_back() {
    let reply = proxy_get("u", Ok(Answer { status: 201, body: Ok(5) }));
    assert!(matches!(reply, ProxyReply::Success(5)));
    assert_eq!((reply.status(), reply.code()), (200, None));
    let reply = proxy_get("u", Ok(Answer { status: 404, body: Ok(5) }));
    assert!(matches!(reply, ProxyReply::Failure { status: 404, body: 5 }));
    assert_eq!((reply.status(), reply.code()), (404, None));
}

#[test]
fn unreached_and_unreadable_answers_are_bad_gateways() {
    let reply: ProxyReply<u8> = proxy_get("u", Err("down".to_string()));
    assert_eq!((reply.status(), reply.code()), (502, Some("UPSTREAM_ERROR")));
    match reply {
        ProxyReply::Unreached { message, url } => assert_eq!((message.as_str(), url.as_str()), ("down", "u")),
        other => panic!("{other:?}"),
    }
    let answer = Answer::<u8> { status: 200, body: Err("no JSON".to_string()) };
    let reply = proxy_get("u", Ok(answer));
    assert_eq!((reply.status(), reply.code()), (502, Some("PARSE_ERROR")));
    assert!(matches!(reply, ProxyReply::Unreadable { .. }));
}

#[test]
fn gateway_health() {
    let health = health("01");
    assert_eq!((health.status, health.service), ("ok", "api-gateway"));
    assert!(!health.sealed);
    assert_eq!(health.cert_serial, "01");
}
