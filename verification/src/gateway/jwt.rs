//! Access tokens, and the users who may have them.
//!
//! The gateway signs tokens with an RSA key (RS256) and accepts only those that it has signed.
use jsonwebtoken::Algorithm;
use jsonwebtoken::DecodingKey;
use jsonwebtoken::EncodingKey;
use jsonwebtoken::Validation;
use serde_json::Value;
use vstd::prelude::*;

use crate::clock;
use crate::clock::Timestamp;
use crate::errors::token_error_text;
use crate::errors::AppError;
use crate::models::Claims;
use crate::table::Table;
use crate::text;

verus! {

/// How long a token is valid, in seconds.
pub const TOKEN_EXPIRY_SECS: i64 = 3600;

/// How many bits a generated key has.
pub const KEY_BITS: usize = 2048;

/// How costly a password hash is.
pub const HASH_COST: u32 = 12;

/// The issuer that every token names.
pub open spec fn issuer_name() -> Seq<char> {
    "securenet-gateway"@
}

/// A value in the JSON body of a token: a text, a number, which is none if it is not an `i64`, or a
/// list, whose entries are none if they are no text.
#[derive(Debug)]
pub enum Field {
    Text(String),
    Number(Option<i64>),
    List(Vec<Option<String>>),
    Other,
}

/// What a field holds.
pub enum FieldView {
    Text(Seq<char>),
    Number(Option<i64>),
    List(Seq<Option<Seq<char>>>),
    Other,
}

impl View for Field {
    type V = FieldView;

    open spec fn view(&self) -> FieldView {
        match *self {
            Field::Text(text) => FieldView::Text(text@),
            Field::Number(n) => FieldView::Number(n),
            Field::List(list) => FieldView::List(text::entries(list@)),
            Field::Other => FieldView::Other,
        }
    }
}

/// The members of the JSON body of a token, as far as they are used; none where they are absent.
pub struct FieldsView {
    pub sub: Option<FieldView>,
    pub iat: Option<FieldView>,
    pub exp: Option<FieldView>,
    pub iss: Option<FieldView>,
    pub roles: Option<FieldView>,
    pub aud: Option<FieldView>,
}

/// What the first member with a name holds.
pub open spec fn member(members: Seq<(String, Field)>, name: Seq<char>) -> Option<FieldView>
    decreases members.len(),
{
    if members.len() == 0 {
        None
    } else if members[0].0@ == name {
        Some(members[0].1@)
    } else {
        member(members.skip(1), name)
    }
}

/// What the members of a token hold.
pub open spec fn fields_view(members: Seq<(String, Field)>) -> FieldsView {
    FieldsView {
        sub: member(members, "sub"@),
        iat: member(members, "iat"@),
        exp: member(members, "exp"@),
        iss: member(members, "iss"@),
        roles: member(members, "roles"@),
        aud: member(members, "aud"@),
    }
}

/// What claims say.
pub struct ClaimsView {
    pub sub: Seq<char>,
    pub iat: i64,
    pub exp: i64,
    pub iss: Seq<char>,
    pub roles: Seq<Seq<char>>,
}

impl View for Claims {
    type V = ClaimsView;

    open spec fn view(&self) -> ClaimsView {
        ClaimsView {
            sub: self.sub@,
            iat: self.iat,
            exp: self.exp,
            iss: self.iss@,
            roles: text::texts(self.roles@),
        }
    }
}

/// The members of the token that says what the claims say.
pub open spec fn fields_of(claims: ClaimsView) -> FieldsView {
    FieldsView {
        sub: Some(FieldView::Text(claims.sub)),
        iat: Some(FieldView::Number(Some(claims.iat))),
        exp: Some(FieldView::Number(Some(claims.exp))),
        iss: Some(FieldView::Text(claims.iss)),
        roles: Some(FieldView::List(claims.roles.map_values(|role: Seq<char>| Some(role)))),
        aud: None,
    }
}

/// What a list of members holds: names and values, in order.
pub open spec fn members_view(members: Seq<(String, Field)>) -> Seq<(Seq<char>, FieldView)> {
    members.map_values(|member: (String, Field)| (member.0@, member.1@))
}

/// The members of the token that says what the claims say, in their order.
pub open spec fn members_for(claims: ClaimsView) -> Seq<(Seq<char>, FieldView)> {
    seq![
        ("sub"@, FieldView::Text(claims.sub)),
        ("iat"@, FieldView::Number(Some(claims.iat))),
        ("exp"@, FieldView::Number(Some(claims.exp))),
        ("iss"@, FieldView::Text(claims.iss)),
        ("roles"@, FieldView::List(claims.roles.map_values(|role: Seq<char>| Some(role)))),
    ]
}

/// The claims that the members of a token make: texts for the user and the issuer, numbers for the
/// times and a list of texts for the roles. None if a member is absent or of another kind.
pub open spec fn claims_in(fields: FieldsView) -> Option<ClaimsView> {
    match (fields.sub, fields.iat, fields.exp, fields.iss, fields.roles) {
        (
            Some(FieldView::Text(sub)),
            Some(FieldView::Number(Some(iat))),
            Some(FieldView::Number(Some(exp))),
            Some(FieldView::Text(iss)),
            Some(FieldView::List(roles)),
        ) => match text::all_texts(roles) {
            Some(roles) => Some(ClaimsView { sub, iat, exp, iss, roles }),
            None => None,
        },
        _ => None,
    }
}

/// The members of a token whose RS256 signature `jsonwebtoken` verifies with a public key in PEM
/// form; the text of its error if the token or its signature is refused.
pub uninterp spec fn signed_fields(token: Seq<char>, public_pem: Seq<u8>) -> Result<
    FieldsView,
    Seq<char>,
>;

/// The token that `jsonwebtoken::encode` signs with RS256, which is the same for the same members and
/// the same private key in PEM form; the text of its error if it signs none.
pub uninterp spec fn token_for(
    members: Seq<(Seq<char>, FieldView)>,
    private_pem: Seq<u8>,
) -> Result<Seq<char>, Seq<char>>;

/// What `jsonwebtoken::decode` finds of a token with RS256 and an issuer, when its clock shows a second
/// since the start of 1970: that it is valid, or the text of the error.
pub uninterp spec fn token_verdict(
    token: Seq<char>,
    public_pem: Seq<u8>,
    issuer: Seq<char>,
    second: u64,
) -> Result<(), Seq<char>>;

/// The text of the error that `jsonwebtoken::EncodingKey::from_rsa_pem` gives to a PEM text; none if it
/// reads a private key from it.
pub uninterp spec fn private_key_fault(pem: Seq<u8>) -> Option<Seq<char>>;

/// The text of the error that `jsonwebtoken::DecodingKey::from_rsa_pem` gives to a PEM text; none if it
/// reads a public key from it.
pub uninterp spec fn public_key_fault(pem: Seq<u8>) -> Option<Seq<char>>;

/// The PEM text that `rsa` writes for the public half of a private key, given the PEM text that it
/// writes for the private key; none of any other text.
pub uninterp spec fn public_half(private_pem: Seq<u8>) -> Option<Seq<u8>>;

/// Whether `bcrypt::verify` finds that a hash is one of a password.
pub uninterp spec fn password_matches(password: Seq<char>, hash: Seq<char>) -> bool;

/// `jsonwebtoken::EncodingKey::from_rsa_pem`: whether the text holds a private key.
#[verifier::external_body]
fn check_private_key(pem: &[u8]) -> (r: Result<(), jsonwebtoken::errors::Error>)
    ensures
        match r {
            Ok(_) => private_key_fault(pem@) is None,
            Err(error) => private_key_fault(pem@) == Some(crate::errors::token_error_display(error)),
        },
{
    EncodingKey::from_rsa_pem(pem).map(|_| ())
}

/// `jsonwebtoken::DecodingKey::from_rsa_pem`: whether the text holds a public key.
#[verifier::external_body]
fn check_public_key(pem: &[u8]) -> (r: Result<(), jsonwebtoken::errors::Error>)
    ensures
        match r {
            Ok(_) => public_key_fault(pem@) is None,
            Err(error) => public_key_fault(pem@) == Some(crate::errors::token_error_display(error)),
        },
{
    DecodingKey::from_rsa_pem(pem).map(|_| ())
}

/// `rsa::RsaPrivateKey::new`: a fresh private key and its public half, both in PEM form, which
/// `jsonwebtoken` reads. Whether a key can be generated is left open; an error is given by its text.
#[verifier::external_body]
fn generate_rsa(bits: usize) -> (r: Result<(Vec<u8>, Vec<u8>), String>)
    requires
        bits == KEY_BITS,
    ensures
        r matches Ok((private_pem, public_pem)) ==> {
            &&& private_key_fault(private_pem@) is None
            &&& public_key_fault(public_pem@) is None
            &&& public_half(private_pem@) == Some(public_pem@)
        },
{
    let ending = rsa::pkcs8::LineEnding::LF;
    let key = rsa::RsaPrivateKey::new(&mut rand::thread_rng(), bits).map_err(|e| e.to_string())?;
    let private_pem = rsa::pkcs8::EncodePrivateKey::to_pkcs8_pem(&key, ending);
    let public_pem = rsa::pkcs8::EncodePublicKey::to_public_key_pem(&key.to_public_key(), ending);
    let private_pem = private_pem.map_err(|e| e.to_string())?.as_bytes().to_vec();
    Ok((private_pem, public_pem.map_err(|e| e.to_string())?.into_bytes()))
}

/// `jsonwebtoken::encode` with RS256: the token with the members, in their order, which is always the
/// same for the same key; or the error. If the members are those of some claims and `rsa` wrote the
/// private key, `jsonwebtoken` reads the token with its public half, and finds in it what the claims
/// say.
#[verifier::external_body]
fn encode_members(members: &Vec<(String, Field)>, private_pem: &[u8]) -> (r: Result<
    String,
    jsonwebtoken::errors::Error,
>)
    ensures
        match r {
            Ok(token) => token_for(members_view(members@), private_pem@) == Ok::<
                Seq<char>,
                Seq<char>,
            >(token@),
            Err(error) => token_for(members_view(members@), private_pem@) == Err::<
                Seq<char>,
                Seq<char>,
            >(crate::errors::token_error_display(error)),
        },
        r matches Ok(token) ==> public_half(private_pem@) matches Some(public_pem) ==> {
            forall|claims: ClaimsView|
                members_view(members@) == #[trigger] members_for(claims) ==> {
                    &&& signed_fields(token@, public_pem) matches Ok(fields)
                    &&& fields == fields_of(claims)
                }
        },
{
    let key = EncodingKey::from_rsa_pem(private_pem)?;
    let write = |field: &Field|
        match field {
            Field::Text(text) => Value::from(text.as_str()),
            Field::Number(n) => Value::from(*n),
            Field::List(list) => Value::from(list.clone()),
            Field::Other => Value::Null,
        };
    let body: serde_json::Map<String, Value> =
        members.iter().map(|(name, field)| (name.clone(), write(field))).collect();
    jsonwebtoken::encode(&jsonwebtoken::Header::new(Algorithm::RS256), &body, &key)
}

/// `jsonwebtoken::decode` with RS256 and nothing required of the claims: the members of a token whose
/// signature is verified, or the error.
#[verifier::external_body]
fn decode_members(token: &str, public_pem: &[u8]) -> (r: Result<
    Vec<(String, Field)>,
    jsonwebtoken::errors::Error,
>)
    ensures
        match r {
            Ok(members) => signed_fields(token@, public_pem@) == Ok::<FieldsView, Seq<char>>(
                fields_view(members@),
            ),
            Err(error) => signed_fields(token@, public_pem@) == Err::<FieldsView, Seq<char>>(
                crate::errors::token_error_display(error),
            ),
        },
{
    let mut validation = Validation::new(Algorithm::RS256);
    validation.required_spec_claims.clear();
    validation.validate_exp = false;
    validation.validate_aud = false;
    let key = DecodingKey::from_rsa_pem(public_pem)?;
    let body: serde_json::Map<_, _> = jsonwebtoken::decode(token, &key, &validation)?.claims;
    let read = |value: Value|
        match value {
            Value::String(s) => Field::Text(s),
            Value::Number(n) => Field::Number(n.as_i64()),
            Value::Array(a) => Field::List(a.iter().map(|v| v.as_str().map(String::from)).collect()),
            _ => Field::Other,
        };
    Ok(body.into_iter().map(|(name, value)| (name, read(value))).collect())
}

/// The outcome of a check, with the text of its error.
pub open spec fn outcome(r: Result<(), jsonwebtoken::errors::Error>) -> Result<(), Seq<char>> {
    match r {
        Ok(_) => Ok(()),
        Err(error) => Err(crate::errors::token_error_display(error)),
    }
}

/// Whether `verdict` is one that a token with these members can have at a second: a token whose
/// signature is not verified is refused for that, and a valid one has an expiry and, if it names an
/// issuer in a text, names the right one. The expiry, with a minute of grace, is looked at first, then
/// the issuer; an audience must not be given.
pub open spec fn is_verdict(
    verdict: Result<(), Seq<char>>,
    decoded: Result<FieldsView, Seq<char>>,
    issuer: Seq<char>,
    second: u64,
) -> bool {
    match decoded {
        Err(why) => verdict == Err::<(), Seq<char>>(why),
        Ok(fields) => {
            &&& verdict is Ok ==> fields.exp is Some
            &&& verdict is Ok ==> (fields.iss matches Some(FieldView::Text(iss)) ==> iss == issuer)
            &&& fields.exp matches Some(FieldView::Number(Some(exp))) ==> exp >= 0 && second >= 60 ==> {
                if exp + 60 < second {
                    verdict == Err::<(), Seq<char>>("ExpiredSignature"@)
                } else {
                    fields.iss matches Some(FieldView::Text(iss)) ==> if iss != issuer {
                        verdict == Err::<(), Seq<char>>("InvalidIssuer"@)
                    } else {
                        fields.aud is None ==> verdict is Ok
                    }
                }
            }
        },
    }
}

/// `jsonwebtoken::decode` with RS256 and an issuer: whether a token is valid at the second that its
/// clock shows. Which second that is, is left open.
#[verifier::external_body]
fn check_token(token: &str, public_pem: &[u8], issuer: &str) -> (r: Result<
    (),
    jsonwebtoken::errors::Error,
>)
    ensures
        exists|second: u64|
            #[trigger] token_verdict(token@, public_pem@, issuer@, second) == outcome(r) && is_verdict(
                outcome(r),
                signed_fields(token@, public_pem@),
                issuer@,
                second,
            ),
{
    let mut validation = Validation::new(Algorithm::RS256);
    validation.set_issuer(&[issuer]);
    let key = DecodingKey::from_rsa_pem(public_pem)?;
    jsonwebtoken::decode::<serde_json::Map<String, Value>>(token, &key, &validation).map(|_| ())
}

/// Whether a password hash names a cost, of two decimal digits.
pub open spec fn names_cost(hash: Seq<char>, cost: u32) -> bool {
    &&& hash.len() >= 7
    &&& hash.take(7) == "$2b$"@ + seq![
        text::hex_digit(cost as int / 10),
        text::hex_digit(cost as int % 10),
    ] + "$"@
}

/// `bcrypt::hash`: a hash that the password matches and that names the cost. Whether there is one is
/// left open.
#[verifier::external_body]
fn hash_password(password: &str, cost: u32) -> (r: Result<String, String>)
    requires
        4 <= cost <= 31,
    ensures
        r matches Ok(hash) ==> password_matches(password@, hash@) && names_cost(hash@, cost),
{
    bcrypt::hash(password, cost).map_err(|e| e.to_string())
}

/// `bcrypt::verify`: whether a hash is one of a password; an error where it is no hash.
#[verifier::external_body]
fn verify_password(password: &str, hash: &str) -> (r: Result<bool, String>)
    ensures
        (r is Ok && r->Ok_0) == password_matches(password@, hash@),
{
    bcrypt::verify(password, hash).map_err(|e| e.to_string())
}

/// Whether the check of a token with a public key and an issuer has found this verdict.
pub closed spec fn was_checked(
    token: Seq<char>,
    public_pem: Seq<u8>,
    issuer: Seq<char>,
    verdict: Result<(), Seq<char>>,
) -> bool {
    exists|t: &str, p: &[u8], i: &str, checked: Result<(), jsonwebtoken::errors::Error>|
        {
            &&& t@ == token
            &&& p@ == public_pem
            &&& i@ == issuer
            &&& outcome(checked) == verdict
            &&& #[trigger] call_ensures(check_token, (t, p, i), checked)
        }
}

/// Whether a pair of keys in PEM form was freshly generated.
pub closed spec fn was_generated(private_pem: Seq<u8>, public_pem: Seq<u8>) -> bool {
    exists|keys: (Vec<u8>, Vec<u8>)|
        {
            &&& keys.0@ == private_pem
            &&& keys.1@ == public_pem
            &&& #[trigger] call_ensures(
                generate_rsa,
                (KEY_BITS,),
                Ok::<(Vec<u8>, Vec<u8>), String>(keys),
            )
        }
}

/// Whether generating a pair of keys has failed, with this text.
pub closed spec fn generating_failed(why: String) -> bool {
    call_ensures(generate_rsa, (KEY_BITS,), Err::<(Vec<u8>, Vec<u8>), String>(why))
}

/// Whether hashing a password has failed, with this text.
pub closed spec fn hashing_failed(password: Seq<char>, why: String) -> bool {
    exists|text: &str|
        text@ == password && #[trigger] call_ensures(
            hash_password,
            (text, HASH_COST),
            Err::<String, String>(why),
        )
}

/// Verdicts, generated keys and failures count only if `check_token`, `generate_rsa` and
/// `hash_password` have given them.
proof fn outcomes_come_from_calls(
    token: Seq<char>,
    public_pem: Seq<u8>,
    issuer: Seq<char>,
    verdict: Result<(), Seq<char>>,
    private_pem: Seq<u8>,
    password: Seq<char>,
    why: String,
)
    ensures
        was_checked(token, public_pem, issuer, verdict) ==> exists|
            t: &str,
            p: &[u8],
            i: &str,
            checked: Result<(), jsonwebtoken::errors::Error>,
        |
            {
                &&& t@ == token
                &&& p@ == public_pem
                &&& i@ == issuer
                &&& outcome(checked) == verdict
                &&& #[trigger] call_ensures(check_token, (t, p, i), checked)
            },
        was_generated(private_pem, public_pem) ==> exists|keys: (Vec<u8>, Vec<u8>)|
            {
                &&& keys.0@ == private_pem
                &&& keys.1@ == public_pem
                &&& #[trigger] call_ensures(
                    generate_rsa,
                    (2048,),
                    Ok::<(Vec<u8>, Vec<u8>), String>(keys),
                )
            },
        generating_failed(why) ==> call_ensures(
            generate_rsa,
            (2048,),
            Err::<(Vec<u8>, Vec<u8>), String>(why),
        ),
        hashing_failed(password, why) ==> exists|text: &str|
            text@ == password && #[trigger] call_ensures(
                hash_password,
                (text, 12),
                Err::<String, String>(why),
            ),
{
}

/// Why there are no keys, with the text of the error.
#[derive(Debug)]
pub enum KeyError {
    Private(String),
    Public(String),
    Generate(String),
}

/// The keys that tokens are signed and verified with, in PEM form.
pub struct JwtKeys {
    private_pem: Vec<u8>,
    public_pem: Vec<u8>,
}

/// Whether `r` is what comes of loading two keys: the private key is looked at first.
pub open spec fn is_loaded(
    r: Result<JwtKeys, KeyError>,
    private_pem: Seq<u8>,
    public_pem: Seq<u8>,
) -> bool {
    match r {
        Ok(keys) => {
            &&& private_key_fault(private_pem) is None
            &&& public_key_fault(public_pem) is None
            &&& keys.private_key() == private_pem
            &&& keys.public_key() == public_pem
        },
        Err(KeyError::Private(why)) => private_key_fault(private_pem) == Some(why@),
        Err(KeyError::Public(why)) => private_key_fault(private_pem) is None && public_key_fault(
            public_pem,
        ) == Some(why@),
        Err(KeyError::Generate(_)) => false,
    }
}

/// Where both key files are; none if one of them is not given.
pub fn key_files(private_path: Option<String>, public_path: Option<String>) -> (r: Option<
    (String, String),
>)
    ensures
        r == match (private_path, public_path) {
            (Some(private_path), Some(public_path)) => Some((private_path, public_path)),
            _ => None,
        },
{
    match (private_path, public_path) {
        (Some(private_path), Some(public_path)) => Some((private_path, public_path)),
        _ => None,
    }
}

/// The claims of a token that is issued at the second `now`: it names the user, the roles and the
/// issuer, and expires an hour later.
pub open spec fn claims_at(username: Seq<char>, roles: Seq<Seq<char>>, now: i64) -> ClaimsView {
    ClaimsView {
        sub: username,
        iat: now,
        exp: (now + TOKEN_EXPIRY_SECS) as i64,
        iss: issuer_name(),
        roles,
    }
}

/// Whether `token` is the one that is signed for the claims with a private key: if `rsa` wrote the
/// key, it is read with the key's public half and says what the claims say.
pub open spec fn is_token(token: Seq<char>, private_pem: Seq<u8>, claims: ClaimsView) -> bool {
    &&& token_for(members_for(claims), private_pem) == Ok::<Seq<char>, Seq<char>>(token)
    &&& public_half(private_pem) matches Some(public_pem) ==> signed_fields(token, public_pem) == Ok::<
        FieldsView,
        Seq<char>,
    >(fields_of(claims))
}

/// Whether `r` is what signing a token for the claims with a private key gives.
pub open spec fn is_signed(
    r: Result<String, AppError>,
    private_pem: Seq<u8>,
    claims: ClaimsView,
) -> bool {
    match r {
        Ok(token) => is_token(token@, private_pem, claims),
        Err(AppError::Internal(why)) => token_for(members_for(claims), private_pem) == Err::<
            Seq<char>,
            Seq<char>,
        >(why@),
        Err(_) => false,
    }
}

/// The claims of a token that is issued at the second `now`.
pub fn claims_for(username: &str, roles: Vec<String>, now: i64) -> (r: Claims)
    requires
        now <= clock::MAX_SECS,
    ensures
        r@ == claims_at(username@, text::texts(roles@), now),
{
    Claims {
        sub: username.to_owned(),
        iat: now,
        exp: now + TOKEN_EXPIRY_SECS,
        iss: "securenet-gateway".to_owned(),
        roles,
    }
}

/// A list of texts as the value of a member.
fn list_of(texts: &Vec<String>) -> (r: Vec<Option<String>>)
    ensures
        text::entries(r@) == text::texts(texts@).map_values(|text: Seq<char>| Some(text)),
{
    let mut out: Vec<Option<String>> = Vec::new();
    let mut i: usize = 0;
    while i < texts.len()
        invariant
            i <= texts.len(),
            out@.len() == i,
            forall|j: int|
                0 <= j < i ==> text::entry_view(#[trigger] out@[j]) == Some(texts@[j]@),
        decreases texts.len() - i,
    {
        out.push(Some(texts[i].clone()));
        i += 1;
    }
    assert(text::entries(out@) =~= text::texts(texts@).map_values(|text: Seq<char>| Some(text)));
    out
}

/// The members of the token that says what the claims say, in their order.
pub fn members_of(claims: &Claims) -> (r: Vec<(String, Field)>)
    ensures
        members_view(r@) == members_for(claims@),
{
    let mut members: Vec<(String, Field)> = Vec::new();
    members.push(("sub".to_owned(), Field::Text(claims.sub.clone())));
    members.push(("iat".to_owned(), Field::Number(Some(claims.iat))));
    members.push(("exp".to_owned(), Field::Number(Some(claims.exp))));
    members.push(("iss".to_owned(), Field::Text(claims.iss.clone())));
    members.push(("roles".to_owned(), Field::List(list_of(&claims.roles))));
    assert(members_view(members@) =~= members_for(claims@));
    members
}

/// The name of the first member that is absent or of another kind than its claim.
pub open spec fn first_bad(fields: FieldsView) -> Seq<char> {
    if !(fields.sub matches Some(FieldView::Text(_))) {
        "sub"@
    } else if !(fields.iat matches Some(FieldView::Number(Some(_)))) {
        "iat"@
    } else if !(fields.exp matches Some(FieldView::Number(Some(_)))) {
        "exp"@
    } else if !(fields.iss matches Some(FieldView::Text(_))) {
        "iss"@
    } else {
        "roles"@
    }
}

/// What is said of a member that is absent or of another kind than its claim.
pub open spec fn bad_member_text(name: Seq<char>) -> Seq<char> {
    "JSON error: missing or invalid field `"@ + name + "`"@
}

/// Whether `r` are the claims that the members of a token make, or the members are refused for the
/// first of them that does not fit.
pub open spec fn reads_claims(r: Result<Claims, AppError>, fields: FieldsView) -> bool {
    match claims_in(fields) {
        Some(claims) => r matches Ok(given) && given@ == claims,
        None => r matches Err(AppError::AuthInvalidToken(why)) && why@ == bad_member_text(
            first_bad(fields),
        ),
    }
}

fn bad_member(name: &str) -> (r: AppError)
    ensures
        r matches AppError::AuthInvalidToken(why) && why@ == bad_member_text(name@),
{
    AppError::AuthInvalidToken(text::concat3("JSON error: missing or invalid field `", name, "`"))
}

/// The place of the first member with a name.
fn find(members: &Vec<(String, Field)>, name: &str) -> (r: Option<usize>)
    ensures
        match r {
            Some(i) => i < members@.len() && member(members@, name@) == Some(members@[i as int].1@),
            None => member(members@, name@) is None,
        },
{
    let mut i: usize = 0;
    assert(members@.skip(0) == members@);
    while i < members.len()
        invariant
            i <= members.len(),
            member(members@, name@) == member(members@.skip(i as int), name@),
        decreases members.len() - i,
    {
        if text::same_text(members[i].0.as_str(), name) {
            return Some(i);
        }
        assert(members@.skip(i as int).skip(1) == members@.skip(i + 1));
        i += 1;
    }
    None
}

fn text_member(members: &Vec<(String, Field)>, name: &str) -> (r: Option<String>)
    ensures
        match r {
            Some(text) => member(members@, name@) == Some(FieldView::Text(text@)),
            None => !(member(members@, name@) matches Some(FieldView::Text(_))),
        },
{
    match find(members, name) {
        Some(i) => match &members[i].1 {
            Field::Text(text) => Some(text.clone()),
            _ => None,
        },
        None => None,
    }
}

fn number_member(members: &Vec<(String, Field)>, name: &str) -> (r: Option<i64>)
    ensures
        match r {
            Some(n) => member(members@, name@) == Some(FieldView::Number(Some(n))),
            None => !(member(members@, name@) matches Some(FieldView::Number(Some(_)))),
        },
{
    match find(members, name) {
        Some(i) => match &members[i].1 {
            Field::Number(n) => *n,
            _ => None,
        },
        None => None,
    }
}

/// The claims that the members of a token make.
pub fn claims_from(members: &Vec<(String, Field)>) -> (r: Result<Claims, AppError>)
    ensures
        reads_claims(r, fields_view(members@)),
{
    let sub: String = match text_member(members, "sub") {
        Some(sub) => sub,
        None => {
            return Err(bad_member("sub"));
        },
    };
    let iat: i64 = match number_member(members, "iat") {
        Some(iat) => iat,
        None => {
            return Err(bad_member("iat"));
        },
    };
    let exp: i64 = match number_member(members, "exp") {
        Some(exp) => exp,
        None => {
            return Err(bad_member("exp"));
        },
    };
    let iss: String = match text_member(members, "iss") {
        Some(iss) => iss,
        None => {
            return Err(bad_member("iss"));
        },
    };
    let place: usize = match find(members, "roles") {
        Some(place) => place,
        None => {
            return Err(bad_member("roles"));
        },
    };
    let list: &Vec<Option<String>> = match &members[place].1 {
        Field::List(list) => list,
        _ => {
            return Err(bad_member("roles"));
        },
    };
    match text::texts_of(list) {
        Some(roles) => Ok(Claims { sub, iat, exp, iss, roles }),
        None => Err(bad_member("roles")),
    }
}

/// Whether `r` is what follows the decoding and the validation of a token: an error of decoding comes
/// first, then members that make no claims, then an error of validation.
pub open spec fn is_accepted(
    r: Result<Claims, AppError>,
    decoded: Result<FieldsView, Seq<char>>,
    validated: Result<(), Seq<char>>,
) -> bool {
    match decoded {
        Ok(fields) => if claims_in(fields) is Some && validated is Err {
            r matches Err(AppError::AuthInvalidToken(why)) && why@ == validated->Err_0
        } else {
            reads_claims(r, fields)
        },
        Err(text) => r matches Err(AppError::AuthInvalidToken(why)) && why@ == text,
    }
}

/// What follows the decoding and the validation of a token, whose errors are given by their texts.
pub fn accept(
    decoded: Result<Vec<(String, Field)>, String>,
    validated: Result<(), String>,
) -> (r: Result<Claims, AppError>)
    ensures
        is_accepted(
            r,
            match decoded {
                Ok(members) => Ok(fields_view(members@)),
                Err(why) => Err(why@),
            },
            match validated {
                Ok(_) => Ok(()),
                Err(why) => Err(why@),
            },
        ),
{
    match decoded {
        Ok(members) => match (claims_from(&members), validated) {
            (Ok(_), Err(why)) => Err(AppError::AuthInvalidToken(why)),
            (read, _) => read,
        },
        Err(why) => Err(AppError::AuthInvalidToken(why)),
    }
}

/// What follows the signing of a token, whose error is given by its text.
pub fn issue(signed: Result<String, String>) -> (r: Result<String, AppError>)
    ensures
        r == match signed {
            Ok(token) => Ok::<String, AppError>(token),
            Err(why) => Err(AppError::Internal(why)),
        },
{
    match signed {
        Ok(token) => Ok(token),
        Err(why) => Err(AppError::Internal(why)),
    }
}

/// Whether `r` is what comes of a token when the clock shows a second: without a signature that is
/// verified the token is refused for that, with members that make no claims for the first of them that
/// does not fit, and else as the verdict at that second says.
pub open spec fn is_validated(
    r: Result<Claims, AppError>,
    token: Seq<char>,
    public_pem: Seq<u8>,
    second: u64,
) -> bool {
    let decoded = signed_fields(token, public_pem);
    let verdict = token_verdict(token, public_pem, issuer_name(), second);
    &&& is_verdict(verdict, decoded, issuer_name(), second)
    &&& is_accepted(r, decoded, verdict)
}

impl JwtKeys {
    /// The private key.
    pub closed spec fn private_key(&self) -> Seq<u8> {
        self.private_pem@
    }

    /// The public key.
    pub closed spec fn public_key(&self) -> Seq<u8> {
        self.public_pem@
    }

    /// The given keys.
    pub fn from_pem(private_pem: Vec<u8>, public_pem: Vec<u8>) -> (r: Result<Self, KeyError>)
        ensures
            is_loaded(r, private_pem@, public_pem@),
    {
        match check_private_key(private_pem.as_slice()) {
            Ok(_) => {},
            Err(error) => {
                return Err(KeyError::Private(token_error_text(&error)));
            },
        }
        match check_public_key(public_pem.as_slice()) {
            Ok(_) => {},
            Err(error) => {
                return Err(KeyError::Public(token_error_text(&error)));
            },
        }
        Ok(JwtKeys { private_pem, public_pem })
    }

    /// The keys that were generated, whose error is given by its text.
    pub fn from_generated(generated: Result<(Vec<u8>, Vec<u8>), String>) -> (r: Result<Self, KeyError>)
        ensures
            match generated {
                Ok((private_pem, public_pem)) => is_loaded(r, private_pem@, public_pem@),
                Err(why) => r == Err::<Self, KeyError>(KeyError::Generate(why)),
            },
    {
        match generated {
            Ok((private_pem, public_pem)) => Self::from_pem(private_pem, public_pem),
            Err(why) => Err(KeyError::Generate(why)),
        }
    }

    /// Fresh keys, which last as long as the process.
    pub fn generate_ephemeral() -> (r: Result<Self, KeyError>)
        ensures
            match r {
                Ok(keys) => public_half(keys.private_key()) == Some(keys.public_key())
                    && was_generated(keys.private_key(), keys.public_key()),
                Err(error) => error matches KeyError::Generate(why) && generating_failed(why),
            },
    {
        Self::from_generated(generate_rsa(KEY_BITS))
    }

    /// The keys of the two key files, or fresh ones where there are no key files.
    pub fn load_or_generate(files: Option<(Vec<u8>, Vec<u8>)>) -> (r: Result<Self, KeyError>)
        ensures
            match files {
                Some((private_pem, public_pem)) => is_loaded(r, private_pem@, public_pem@),
                None => match r {
                    Ok(keys) => public_half(keys.private_key()) == Some(keys.public_key())
                        && was_generated(keys.private_key(), keys.public_key()),
                    Err(error) => error matches KeyError::Generate(why) && generating_failed(why),
                },
            },
    {
        match files {
            Some((private_pem, public_pem)) => Self::from_pem(private_pem, public_pem),
            None => Self::generate_ephemeral(),
        }
    }

    /// A token for the user with the given roles, issued at the second `now`.
    pub fn sign_at(&self, username: &str, roles: Vec<String>, now: i64) -> (r: Result<
        String,
        AppError,
    >)
        requires
            now <= clock::MAX_SECS,
        ensures
            is_signed(r, self.private_key(), claims_at(username@, text::texts(roles@), now)),
    {
        let claims: Claims = claims_for(username, roles, now);
        match encode_members(&members_of(&claims), self.private_pem.as_slice()) {
            Ok(token) => issue(Ok(token)),
            Err(error) => issue(Err(token_error_text(&error))),
        }
    }

    /// A token for the user with the given roles.
    pub fn sign(&self, username: &str, roles: Vec<String>) -> (r: Result<String, AppError>)
        ensures
            exists|now: Timestamp|
                0 <= now.secs <= clock::MAX_SECS && #[trigger] clock::was_shown(now) && is_signed(
                    r,
                    self.private_key(),
                    claims_at(username@, text::texts(roles@), now.secs),
                ),
    {
        let now: Timestamp = clock::now();
        self.sign_at(username, roles, now.secs)
    }

    /// The claims of a token, if it was signed with these keys, names the issuer and has not
    /// expired. Which second the clock shows is left open.
    pub fn validate(&self, token: &str) -> (r: Result<Claims, AppError>)
        ensures
            exists|second: u64| #[trigger]
                is_validated(r, token@, self.public_key(), second) && was_checked(
                    token@,
                    self.public_key(),
                    issuer_name(),
                    token_verdict(token@, self.public_key(), issuer_name(), second),
                ),
    {
        let decoded: Result<Vec<(String, Field)>, String> = match decode_members(
            token,
            self.public_pem.as_slice(),
        ) {
            Ok(members) => Ok(members),
            Err(error) => Err(token_error_text(&error)),
        };
        let checked: Result<(), jsonwebtoken::errors::Error> = check_token(
            token,
            self.public_pem.as_slice(),
            "securenet-gateway",
        );
        let ghost second = choose|second: u64|
            #[trigger] token_verdict(token@, self.public_key(), issuer_name(), second) == outcome(checked)
                && is_verdict(
                outcome(checked),
                signed_fields(token@, self.public_key()),
                issuer_name(),
                second,
            );
        let ghost verdict = outcome(checked);
        assert(was_checked(token@, self.public_key(), issuer_name(), verdict));
        let validated: Result<(), String> = match checked {
            Ok(_) => Ok(()),
            Err(error) => Err(token_error_text(&error)),
        };
        let r: Result<Claims, AppError> = accept(decoded, validated);
        assert(is_accepted(r, signed_fields(token@, self.public_key()), verdict));
        assert(is_validated(r, token@, self.public_key(), second));
        r
    }
}

/// A token says what it was made for: its members make the claims that they were made from.
pub proof fn claims_read_back(claims: ClaimsView)
    ensures
        claims_in(fields_of(claims)) == Some(claims),
{
    let roles = claims.roles.map_values(|role: Seq<char>| Some(role));
    assert(roles.map_values(|role: Option<Seq<char>>| role->0) =~= claims.roles);
}

/// What the gateway accepts is what it has signed: if a token that was signed for a user with fresh
/// keys is accepted, the claims name that user, the roles and the issuer, and expire an hour after
/// the token was issued.
pub proof fn accepted_tokens_say_what_was_signed(
    keys: JwtKeys,
    token: Seq<char>,
    username: Seq<char>,
    roles: Seq<Seq<char>>,
    now: i64,
    accepted: Claims,
    second: u64,
)
    requires
        public_half(keys.private_key()) == Some(keys.public_key()),
        is_token(token, keys.private_key(), claims_at(username, roles, now)),
        is_validated(Ok(accepted), token, keys.public_key(), second),
    ensures
        accepted@ == claims_at(username, roles, now),
{
    claims_read_back(claims_at(username, roles, now));
}

/// A token is good for an hour, and a minute of grace: one that was signed for a user with fresh keys
/// is accepted until then, with the claims that it was signed for, and is refused as expired after it.
pub proof fn tokens_are_good_for_an_hour(
    keys: JwtKeys,
    token: Seq<char>,
    username: Seq<char>,
    roles: Seq<Seq<char>>,
    now: i64,
    r: Result<Claims, AppError>,
    second: u64,
)
    requires
        0 <= now <= clock::MAX_SECS,
        60 <= second,
        public_half(keys.private_key()) == Some(keys.public_key()),
        is_token(token, keys.private_key(), claims_at(username, roles, now)),
        is_validated(r, token, keys.public_key(), second),
    ensures
        if second <= now + TOKEN_EXPIRY_SECS + 60 {
            r matches Ok(claims) && claims@ == claims_at(username, roles, now)
        } else {
            r matches Err(AppError::AuthInvalidToken(why)) && why@ == "ExpiredSignature"@
        },
{
    claims_read_back(claims_at(username, roles, now));
}

/// A token that names another issuer, or whose signature is not verified, is refused as invalid
/// whatever the time.
pub proof fn foreign_tokens_are_refused(
    r: Result<Claims, AppError>,
    token: Seq<char>,
    public_pem: Seq<u8>,
    second: u64,
)
    requires
        is_validated(r, token, public_pem, second),
        signed_fields(token, public_pem) matches Ok(fields) ==> fields.iss != Some(
            FieldView::Text(issuer_name()),
        ),
    ensures
        r matches Err(AppError::AuthInvalidToken(_)),
{
}

/// The users who can log in: a password hash and the roles of each.
pub struct UserStore {
    users: Table<String, (String, Vec<String>)>,
}

/// The roles that a login gives, or none: the user must exist, and the password must match.
pub open spec fn login(
    users: Map<Seq<char>, (String, Vec<String>)>,
    username: Seq<char>,
    password: Seq<char>,
) -> Option<Seq<Seq<char>>> {
    if users.contains_key(username) && password_matches(password, users[username].0@) {
        Some(text::texts(users[username].1@))
    } else {
        None
    }
}

impl UserStore {
    /// The users, each with a hash and roles.
    pub closed spec fn users(&self) -> Map<Seq<char>, (String, Vec<String>)> {
        self.users@
    }

    /// The store with the users `alice` and `admin`, given the hashes of their passwords; the text of
    /// an error that hashing gave, alice's first.
    pub fn seeded_with(alice: Result<String, String>, admin: Result<String, String>) -> (r: Result<
        Self,
        AppError,
    >)
        ensures
            match (alice, admin) {
                (Ok(alice), Ok(admin)) => {
                    &&& r matches Ok(store)
                    &&& store.users().dom() == set!["alice"@, "admin"@]
                    &&& store.users()["alice"@].0 == alice
                    &&& store.users()["admin"@].0 == admin
                    &&& text::texts(store.users()["alice"@].1@) == seq!["user"@]
                    &&& text::texts(store.users()["admin"@].1@) == seq!["user"@, "admin"@]
                },
                (Err(why), _) => r == Err::<Self, AppError>(AppError::Internal(why)),
                (_, Err(why)) => r == Err::<Self, AppError>(AppError::Internal(why)),
            },
    {
        let alice: String = match alice {
            Ok(hash) => hash,
            Err(why) => {
                return Err(AppError::Internal(why));
            },
        };
        let admin: String = match admin {
            Ok(hash) => hash,
            Err(why) => {
                return Err(AppError::Internal(why));
            },
        };
        let mut user_roles: Vec<String> = Vec::new();
        user_roles.push("user".to_owned());
        let mut admin_roles: Vec<String> = Vec::new();
        admin_roles.push("user".to_owned());
        admin_roles.push("admin".to_owned());
        proof {
            assert(text::texts(user_roles@) == seq!["user"@]);
            assert(text::texts(admin_roles@) == seq!["user"@, "admin"@]);
            reveal_strlit("alice");
            reveal_strlit("admin");
            assert("alice"@[1] != "admin"@[1]);
        }
        let mut users: Table<String, (String, Vec<String>)> = Table::new();
        users.insert("alice".to_owned(), (alice, user_roles));
        users.insert("admin".to_owned(), (admin, admin_roles));
        assert(users@.dom() =~= set!["alice"@, "admin"@]);
        Ok(UserStore { users })
    }

    /// The store with the users `alice` and `admin`; an error if a password cannot be hashed.
    pub fn seeded() -> (r: Result<Self, AppError>)
        ensures
            match r {
                Ok(store) => {
                    &&& store.users().dom() == set!["alice"@, "admin"@]
                    &&& password_matches("hunter2"@, store.users()["alice"@].0@)
                    &&& password_matches("admin123"@, store.users()["admin"@].0@)
                    &&& names_cost(store.users()["alice"@].0@, HASH_COST)
                    &&& names_cost(store.users()["admin"@].0@, HASH_COST)
                    &&& text::texts(store.users()["alice"@].1@) == seq!["user"@]
                    &&& text::texts(store.users()["admin"@].1@) == seq!["user"@, "admin"@]
                },
                Err(error) => error matches AppError::Internal(why) && (hashing_failed(
                    "hunter2"@,
                    why,
                ) || hashing_failed("admin123"@, why)),
            },
    {
        let alice: Result<String, String> = hash_password("hunter2", HASH_COST);
        let admin: Result<String, String> = hash_password("admin123", HASH_COST);
        Self::seeded_with(alice, admin)
    }

    /// The roles of a user who gives the right password.
    pub fn authenticate(&self, username: &str, password: &str) -> (r: Option<Vec<String>>)
        ensures
            match (r, login(self.users(), username@, password@)) {
                (Some(roles), Some(expected)) => text::texts(roles@) == expected,
                (None, None) => true,
                _ => false,
            },
    {
        let key: String = username.to_owned();
        match self.users.get(&key) {
            Some(entry) => match verify_password(password, entry.0.as_str()) {
                Ok(true) => Some(text::copy_texts(&entry.1)),
                _ => None,
            },
            None => None,
        }
    }
}

/// The two users of the seeded store can log in, each with their own password and roles, and nobody
/// else can.
pub proof fn seeded_users_can_log_in(
    users: Map<Seq<char>, (String, Vec<String>)>,
    stranger: Seq<char>,
    password: Seq<char>,
)
    requires
        users.dom() == set!["alice"@, "admin"@],
        password_matches("hunter2"@, users["alice"@].0@),
        password_matches("admin123"@, users["admin"@].0@),
        text::texts(users["alice"@].1@) == seq!["user"@],
        text::texts(users["admin"@].1@) == seq!["user"@, "admin"@],
        stranger != "alice"@,
        stranger != "admin"@,
    ensures
        login(users, "alice"@, "hunter2"@) == Some(seq!["user"@]),
        login(users, "admin"@, "admin123"@) == Some(seq!["user"@, "admin"@]),
        login(users, stranger, password) is None,
{
    assert(users.dom().contains("alice"@) && users.dom().contains("admin"@));
    assert(!users.dom().contains(stranger));
}

/// A token is made for its user, with the roles that were given, by the gateway, and lasts an hour.
pub proof fn claims_last_an_hour(username: &str, roles: Vec<String>, now: i64, r: Claims)
    requires
        now <= clock::MAX_SECS,
        call_ensures(claims_for, (username, roles, now), r),
    ensures
        r.sub@ == username@,
        r.roles@.len() == roles@.len(),
        forall|i: int| 0 <= i < roles@.len() ==> (#[trigger] r.roles@[i])@ == roles@[i]@,
        r.iss@ == "securenet-gateway"@,
        r.iat == now,
        r.exp - r.iat == 3600,
{
    assert(text::texts(r.roles@).len() == text::texts(roles@).len());
    assert forall|i: int| 0 <= i < roles@.len() implies (#[trigger] r.roles@[i])@ == roles@[i]@ by {
        assert(text::texts(r.roles@)[i] == text::texts(roles@)[i]);
    }
}

/// Writing claims into the members of a token and reading them gives the same claims.
pub proof fn members_read_back(claims: &Claims, members: Vec<(String, Field)>, r: Result<Claims, AppError>)
    requires
        call_ensures(members_of, (claims,), members),
        call_ensures(claims_from, (&members,), r),
    ensures
        r matches Ok(read) && read@ == claims@,
        members@.len() == 5,
{
    let held = members@;
    let expected = members_for(claims@);
    assert(members_view(held).len() == 5);
    assert forall|i: int| 0 <= i < 5 implies (#[trigger] held[i]).0@ == expected[i].0 && held[i].1@
        == expected[i].1 by {
        assert(members_view(held)[i] == expected[i]);
    }
    reveal_strlit("sub");
    reveal_strlit("iat");
    reveal_strlit("exp");
    reveal_strlit("iss");
    reveal_strlit("roles");
    assert("sub"@[0] == 's' && "iat"@[1] == 'a' && "exp"@[0] == 'e' && "iss"@[1] == 's'
        && "roles"@[0] == 'r' && "iat"@[0] == 'i' && "iss"@[0] == 'i');
    reveal_with_fuel(member, 6);
    assert(held.skip(1).skip(1) =~= held.skip(2));
    assert(held.skip(2).skip(1) =~= held.skip(3));
    assert(held.skip(3).skip(1) =~= held.skip(4));
    assert(member(held, "sub"@) == Some(expected[0].1));
    assert(member(held, "iat"@) == Some(expected[1].1));
    assert(member(held, "exp"@) == Some(expected[2].1));
    assert(member(held, "iss"@) == Some(expected[3].1));
    assert(member(held, "roles"@) == Some(expected[4].1));
    claims_read_back(claims@);
    let fields = fields_view(held);
    assert(claims_in(fields) == claims_in(fields_of(claims@)));
}

/// What is accepted of a token is what is signed in it: the user, the times, the issuer, which is the
/// gateway, and the roles; and the check of the token has found nothing wrong.
pub proof fn accepted_claims_are_the_signed_ones(keys: &JwtKeys, token: &str, claims: Claims)
    requires
        call_ensures(JwtKeys::validate, (keys, token), Ok(claims)),
    ensures
        signed_fields(token@, keys.public_key()) matches Ok(fields) && {
            &&& fields.sub == Some(FieldView::Text(claims.sub@))
            &&& fields.iat == Some(FieldView::Number(Some(claims.iat)))
            &&& fields.exp == Some(FieldView::Number(Some(claims.exp)))
            &&& fields.iss == Some(FieldView::Text(claims.iss@))
            &&& fields.roles matches Some(FieldView::List(roles))
            &&& roles.len() == claims.roles@.len()
            &&& forall|i: int| 0 <= i < roles.len() ==> #[trigger] roles[i] == Some(claims.roles@[i]@)
        },
        claims.iss@ == "securenet-gateway"@,
        was_checked(token@, keys.public_key(), "securenet-gateway"@, Ok(())),
{
    let second = choose|second: u64| #[trigger]
        is_validated(Ok(claims), token@, keys.public_key(), second) && was_checked(
            token@,
            keys.public_key(),
            issuer_name(),
            token_verdict(token@, keys.public_key(), issuer_name(), second),
        );
    let fields = signed_fields(token@, keys.public_key())->Ok_0;
    let roles = fields.roles->0->List_0;
    assert(text::texts(claims.roles@).len() == roles.len());
    assert forall|i: int| 0 <= i < roles.len() implies #[trigger] roles[i] == Some(
        claims.roles@[i]@,
    ) by {
        assert(roles[i] is Some);
        assert(text::texts(claims.roles@)[i] == text::all_texts(roles)->0[i]);
    }
}

/// A token is refused only as invalid: with the text of the error if its signature is not verified, and
/// else, if it makes claims, with what the check has found wrong.
pub proof fn tokens_are_refused_for_a_reason(keys: &JwtKeys, token: &str, error: AppError)
    requires
        call_ensures(JwtKeys::validate, (keys, token), Err(error)),
    ensures
        error matches AppError::AuthInvalidToken(why) && match signed_fields(
            token@,
            keys.public_key(),
        ) {
            Err(text) => why@ == text,
            Ok(fields) => {
                ||| was_checked(
                    token@,
                    keys.public_key(),
                    "securenet-gateway"@,
                    Err::<(), Seq<char>>(why@),
                )
                ||| !(fields.sub matches Some(FieldView::Text(_)))
                ||| !(fields.iat matches Some(FieldView::Number(Some(_))))
                ||| !(fields.exp matches Some(FieldView::Number(Some(_))))
                ||| !(fields.iss matches Some(FieldView::Text(_)))
                ||| !(fields.roles matches Some(FieldView::List(_)))
                ||| exists|i: int|
                    0 <= i < fields.roles->0->List_0.len() && (
                    #[trigger] fields.roles->0->List_0[i]) is None
            },
        },
{
    let second = choose|second: u64| #[trigger]
        is_validated(Err(error), token@, keys.public_key(), second) && was_checked(
            token@,
            keys.public_key(),
            issuer_name(),
            token_verdict(token@, keys.public_key(), issuer_name(), second),
        );
    if let Ok(fields) = signed_fields(token@, keys.public_key()) {
        if fields.roles matches Some(FieldView::List(_)) {
            let roles = fields.roles->0->List_0;
            if !(exists|i: int| 0 <= i < roles.len() && (#[trigger] roles[i]) is None) {
                assert(forall|i: int| 0 <= i < roles.len() ==> (#[trigger] roles[i]) is Some);
            }
        }
    }
}

/// The gateway accepts what it has signed: a token for a user, signed with keys that were generated, is
/// accepted in the hour behind its issue and the minute after, for that user, with these roles and times;
/// after that it is refused as expired. The second is the one that the check of the token went by.
pub proof fn signed_tokens_are_accepted_for_an_hour(
    keys: JwtKeys,
    username: &str,
    roles: Vec<String>,
    now: i64,
    token: String,
    presented: &str,
    r: Result<Claims, AppError>,
)
    requires
        0 <= now <= clock::MAX_SECS,
        call_ensures(JwtKeys::generate_ephemeral, (), Ok(keys)),
        call_ensures(JwtKeys::sign_at, (&keys, username, roles, now), Ok(token)),
        presented@ == token@,
        call_ensures(JwtKeys::validate, (&keys, presented), r),
    ensures
        r matches Ok(claims) ==> {
            &&& claims.sub@ == username@
            &&& claims.iss@ == "securenet-gateway"@
            &&& claims.iat == now && claims.exp == now + 3600
            &&& text::texts(claims.roles@) == text::texts(roles@)
        },
        exists|second: u64|
            #![trigger token_verdict(token@, keys.public_key(), issuer_name(), second)]
            {
                &&& was_checked(
                    token@,
                    keys.public_key(),
                    "securenet-gateway"@,
                    token_verdict(token@, keys.public_key(), issuer_name(), second),
                )
                &&& 60 <= second <= now + 3660 ==> r is Ok
                &&& 60 <= second && now + 3660 < second ==> (r matches Err(
                    AppError::AuthInvalidToken(why),
                ) && why@ == "ExpiredSignature"@)
            },
{
    let claims = claims_at(username@, text::texts(roles@), now);
    claims_read_back(claims);
    let second = choose|second: u64| #[trigger]
        is_validated(r, token@, keys.public_key(), second) && was_checked(
            token@,
            keys.public_key(),
            issuer_name(),
            token_verdict(token@, keys.public_key(), issuer_name(), second),
        );
    assert(token_verdict(token@, keys.public_key(), issuer_name(), second) == token_verdict(
        token@,
        keys.public_key(),
        issuer_name(),
        second,
    ));
}

/// A token is what is signed for the user, the times, the gateway and the roles, in this order; if it
/// cannot be signed, the error is internal and has the text of the one that signing gave.
pub proof fn tokens_hold_five_members(
    keys: &JwtKeys,
    username: &str,
    roles: Vec<String>,
    now: i64,
    r: Result<String, AppError>,
)
    requires
        now <= clock::MAX_SECS,
        call_ensures(JwtKeys::sign_at, (keys, username, roles, now), r),
    ensures
        ({
            let members = seq![
                ("sub"@, FieldView::Text(username@)),
                ("iat"@, FieldView::Number(Some(now))),
                ("exp"@, FieldView::Number(Some((now + 3600) as i64))),
                ("iss"@, FieldView::Text("securenet-gateway"@)),
                (
                    "roles"@,
                    FieldView::List(text::texts(roles@).map_values(|role: Seq<char>| Some(role))),
                ),
            ];
            match r {
                Ok(token) => token_for(members, keys.private_key()) == Ok::<Seq<char>, Seq<char>>(
                    token@,
                ),
                Err(error) => error matches AppError::Internal(why) && token_for(
                    members,
                    keys.private_key(),
                ) == Err::<Seq<char>, Seq<char>>(why@),
            }
        }),
{
}

/// A token that is signed now is dated by what the system clock shows, and so is its expiry an hour later.
pub proof fn tokens_are_dated_by_the_clock(
    keys: &JwtKeys,
    username: &str,
    roles: Vec<String>,
    token: String,
    fields: FieldsView,
    public_pem: Seq<u8>,
)
    requires
        call_ensures(JwtKeys::sign, (keys, username, roles), Ok(token)),
        public_half(keys.private_key()) == Some(public_pem),
        signed_fields(token@, public_pem) == Ok::<FieldsView, Seq<char>>(fields),
    ensures
        fields.sub == Some(FieldView::Text(username@)),
        fields.iss == Some(FieldView::Text("securenet-gateway"@)),
        exists|now: Timestamp| #[trigger]
            clock::was_shown(now) && fields.iat == Some(FieldView::Number(Some(now.secs)))
                && fields.exp == Some(FieldView::Number(Some((now.secs + 3600) as i64))),
{
    let now = choose|now: Timestamp|
        0 <= now.secs <= clock::MAX_SECS && #[trigger] clock::was_shown(now) && is_signed(
            Ok(token),
            keys.private_key(),
            claims_at(username@, text::texts(roles@), now.secs),
        );
    assert(clock::was_shown(now));
}

/// Keys are loaded as they are given, unless one of them cannot be read; the private key is looked at
/// first. Key files are loaded like that, and without them keys are generated.
pub proof fn keys_are_loaded_as_given(
    private_pem: Vec<u8>,
    public_pem: Vec<u8>,
    r: Result<JwtKeys, KeyError>,
    loaded: Result<JwtKeys, KeyError>,
    generated: Result<JwtKeys, KeyError>,
)
    requires
        call_ensures(JwtKeys::from_pem, (private_pem, public_pem), r),
        call_ensures(JwtKeys::load_or_generate, (Some((private_pem, public_pem)),), loaded),
        call_ensures(JwtKeys::load_or_generate, (None,), generated),
    ensures
        r is Ok <==> private_key_fault(private_pem@) is None && public_key_fault(public_pem@) is None,
        r matches Ok(keys) ==> keys.private_key() == private_pem@ && keys.public_key()
            == public_pem@,
        private_key_fault(private_pem@) matches Some(text) ==> r matches Err(
            KeyError::Private(why),
        ) && why@ == text,
        loaded is Ok <==> r is Ok,
        loaded matches Ok(keys) ==> keys.private_key() == private_pem@ && keys.public_key()
            == public_pem@,
        generated matches Ok(keys) ==> was_generated(keys.private_key(), keys.public_key()),
        generated matches Err(error) ==> error matches KeyError::Generate(why)
            && generating_failed(why),
{
}

/// Key files are used only if both are given.
pub proof fn both_key_files_are_needed(
    private_path: Option<String>,
    public_path: Option<String>,
    r: Option<(String, String)>,
)
    requires
        call_ensures(key_files, (private_path, public_path), r),
    ensures
        r is Some <==> private_path is Some && public_path is Some,
        r matches Some(paths) ==> private_path == Some(paths.0) && public_path == Some(paths.1),
{
}

/// A user is let in exactly if they exist and their password matches, and gets their own roles.
pub proof fn only_matching_passwords_let_in(
    store: &UserStore,
    username: &str,
    password: &str,
    r: Option<Vec<String>>,
)
    requires
        call_ensures(UserStore::authenticate, (store, username, password), r),
    ensures
        r is Some <==> store.users().contains_key(username@) && password_matches(
            password@,
            store.users()[username@].0@,
        ),
        r matches Some(roles) ==> roles@.len() == store.users()[username@].1@.len() && forall|
            i: int,
        |
            0 <= i < roles@.len() ==> (#[trigger] roles@[i])@ == store.users()[username@].1@[i]@,
{
    if let Some(roles) = r {
        assert(text::texts(roles@).len() == text::texts(store.users()[username@].1@).len());
        assert forall|i: int| 0 <= i < roles@.len() implies (#[trigger] roles@[i])@
            == store.users()[username@].1@[i]@ by {
            assert(text::texts(roles@)[i] == text::texts(store.users()[username@].1@)[i]);
        }
    }
}

/// In a seeded store alice is a user and admin also an administrator; each is let in by the password that
/// the hash is of, and nobody else is.
pub proof fn seeded_stores_hold_two_users(
    alice: String,
    admin: String,
    store: UserStore,
    username: &str,
    password: &str,
    r: Option<Vec<String>>,
)
    requires
        call_ensures(UserStore::seeded_with, (Ok(alice), Ok(admin)), Ok(store)),
        call_ensures(UserStore::authenticate, (&store, username, password), r),
    ensures
        username@ == "alice"@ ==> (r is Some <==> password_matches(password@, alice@)),
        username@ == "alice"@ ==> (r matches Some(roles) ==> text::texts(roles@) == seq!["user"@]),
        username@ == "admin"@ ==> (r is Some <==> password_matches(password@, admin@)),
        username@ == "admin"@ ==> (r matches Some(roles) ==> text::texts(roles@) == seq![
            "user"@,
            "admin"@,
        ]),
        username@ != "alice"@ && username@ != "admin"@ ==> r is None,
{
    assert(store.users().dom().contains("alice"@) && store.users().dom().contains("admin"@));
    assert(store.users().contains_key(username@) <==> store.users().dom().contains(username@));
}

/// The store that the gateway starts with lets alice in with `hunter2` and admin with `admin123`; if it
/// cannot be made, hashing one of the passwords has failed.
pub proof fn started_stores_know_the_passwords(
    made: Result<UserStore, AppError>,
    username: &str,
    password: &str,
    r: Option<Vec<String>>,
)
    requires
        call_ensures(UserStore::seeded, (), made),
        made matches Ok(store) ==> call_ensures(
            UserStore::authenticate,
            (&store, username, password),
            r,
        ),
    ensures
        made is Ok && username@ == "alice"@ && password@ == "hunter2"@ ==> (r matches Some(roles)
            && text::texts(roles@) == seq!["user"@]),
        made is Ok && username@ == "admin"@ && password@ == "admin123"@ ==> (r matches Some(roles)
            && text::texts(roles@) == seq!["user"@, "admin"@]),
        made is Ok && username@ != "alice"@ && username@ != "admin"@ ==> r is None,
        made matches Ok(store) ==> store.users()["alice"@].0@.take(7) == "$2b$12$"@
            && store.users()["admin"@].0@.take(7) == "$2b$12$"@,
        made matches Err(error) ==> error matches AppError::Internal(why) && (hashing_failed(
            "hunter2"@,
            why,
        ) || hashing_failed("admin123"@, why)),
{
    if let Ok(store) = made {
        reveal_strlit("$2b$");
        reveal_strlit("$");
        reveal_strlit("$2b$12$");
        assert("$2b$"@ + seq![text::hex_digit(1), text::hex_digit(2)] + "$"@ =~= "$2b$12$"@);
        assert(store.users().dom().contains("alice"@) && store.users().dom().contains("admin"@));
        assert(store.users().contains_key(username@) <==> store.users().dom().contains(username@));
    }
}

/// What was signed is handed out, and what could not be signed is an internal error with the same text;
/// what was decoded is accepted only if it makes claims and was not found wrong.
pub proof fn outcomes_are_handed_on(
    signed: Result<String, String>,
    issued: Result<String, AppError>,
    decoded: Result<Vec<(String, Field)>, String>,
    validated: Result<(), String>,
    accepted: Result<Claims, AppError>,
    read: Result<Claims, AppError>,
)
    requires
        call_ensures(issue, (signed,), issued),
        call_ensures(accept, (decoded, validated), accepted),
        decoded matches Ok(members) ==> call_ensures(claims_from, (&members,), read),
    ensures
        signed matches Ok(token) ==> issued == Ok::<String, AppError>(token),
        signed matches Err(why) ==> issued matches Err(AppError::Internal(text)) && text@ == why@,
        accepted is Ok <==> decoded is Ok && read is Ok && validated is Ok,
        accepted matches Ok(claims) ==> claims@ == read->Ok_0@,
        decoded matches Err(why) ==> accepted matches Err(AppError::AuthInvalidToken(text)) && text@
            == why@,
        decoded is Ok && read is Ok && validated is Err ==> (accepted matches Err(
            AppError::AuthInvalidToken(text),
        ) && text@ == validated->Err_0@),
{
}

/// Keys that were generated are loaded as they are; if none were, the error says why.
pub proof fn generated_keys_are_loaded(
    generated: Result<(Vec<u8>, Vec<u8>), String>,
    r: Result<JwtKeys, KeyError>,
    loaded: Result<JwtKeys, KeyError>,
)
    requires
        call_ensures(JwtKeys::from_generated, (generated,), r),
        generated matches Ok(keys) ==> call_ensures(JwtKeys::from_pem, (keys.0, keys.1), loaded),
    ensures
        generated matches Err(why) ==> r == Err::<JwtKeys, KeyError>(KeyError::Generate(why)),
        generated is Ok ==> (r is Ok <==> loaded is Ok),
        generated matches Ok(keys) ==> r matches Ok(made) ==> made.private_key() == keys.0@
            && made.public_key() == keys.1@,
        r matches Err(KeyError::Generate(_)) ==> generated is Err,
{
}

/// Claims are made of the first members with their names: texts for the user and the issuer, numbers for
/// the times, and a list of texts for the roles. If one of them is missing or of another kind, the token is
/// invalid, and the error names one that is.
pub proof fn claims_are_made_of_members(
    members: &Vec<(String, Field)>,
    r: Result<Claims, AppError>,
)
    requires
        call_ensures(claims_from, (members,), r),
    ensures
        r matches Ok(claims) ==> {
            &&& member(members@, "sub"@) == Some(FieldView::Text(claims.sub@))
            &&& member(members@, "iat"@) == Some(FieldView::Number(Some(claims.iat)))
            &&& member(members@, "exp"@) == Some(FieldView::Number(Some(claims.exp)))
            &&& member(members@, "iss"@) == Some(FieldView::Text(claims.iss@))
            &&& member(members@, "roles"@) matches Some(FieldView::List(_))
        },
        r matches Err(error) ==> error matches AppError::AuthInvalidToken(why) && {
            ||| !(member(members@, "sub"@) matches Some(FieldView::Text(_))) && why@
                == bad_member_text("sub"@)
            ||| !(member(members@, "iat"@) matches Some(FieldView::Number(Some(_)))) && why@
                == bad_member_text("iat"@)
            ||| !(member(members@, "exp"@) matches Some(FieldView::Number(Some(_)))) && why@
                == bad_member_text("exp"@)
            ||| !(member(members@, "iss"@) matches Some(FieldView::Text(_))) && why@
                == bad_member_text("iss"@)
            ||| (match member(members@, "roles"@) {
                Some(FieldView::List(list)) => exists|i: int|
                    0 <= i < list.len() && (#[trigger] list[i]) is None,
                _ => true,
            }) && why@ == bad_member_text("roles"@)
        },
{
    if let Some(FieldView::List(list)) = member(members@, "roles"@) {
        if !(exists|i: int| 0 <= i < list.len() && (#[trigger] list[i]) is None) {
            assert(forall|i: int| 0 <= i < list.len() ==> (#[trigger] list[i]) is Some);
        }
    }
}

/// The first member with a name is the one before which there is no other.
pub proof fn first_members_count(members: Seq<(String, Field)>, name: Seq<char>)
    ensures
        match member(members, name) {
            Some(held) => exists|i: int|
                {
                    &&& 0 <= i < members.len()
                    &&& (#[trigger] members[i]).0@ == name
                    &&& members[i].1@ == held
                    &&& forall|j: int| 0 <= j < i ==> (#[trigger] members[j]).0@ != name
                },
            None => forall|i: int| 0 <= i < members.len() ==> (#[trigger] members[i]).0@ != name,
        },
    decreases members.len(),
{
    if members.len() > 0 {
        if members[0].0@ == name {
            assert(members[0].1@ == members[0].1@);
        } else {
            let rest = members.skip(1);
            first_members_count(rest, name);
            assert forall|i: int| 0 < i < members.len() implies #[trigger] members[i] == rest[i
                - 1] by {}
            if let Some(held) = member(rest, name) {
                let i = choose|i: int|
                    {
                        &&& 0 <= i < rest.len()
                        &&& (#[trigger] rest[i]).0@ == name
                        &&& rest[i].1@ == held
                        &&& forall|j: int| 0 <= j < i ==> (#[trigger] rest[j]).0@ != name
                    };
                assert(members[i + 1].0@ == name);
                assert forall|j: int| 0 <= j < i + 1 implies (#[trigger] members[j]).0@ != name by {
                    if j > 0 {
                        assert(rest[j - 1].0@ != name);
                    }
                }
            } else {
                assert forall|i: int| 0 <= i < members.len() implies (#[trigger] members[i]).0@
                    != name by {
                    if i > 0 {
                        assert(rest[i - 1].0@ != name);
                    }
                }
            }
        }
    }
}

} // verus!
