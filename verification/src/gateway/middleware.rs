//! The check that stands before every protected request.
use vstd::prelude::*;

use crate::errors::AppError;
use crate::gateway::jwt;
use crate::gateway::jwt::JwtKeys;
use crate::models::Claims;
use crate::text;

verus! {

/// Whether a text can be the value of a header: it holds no control character but the tab.
pub open spec fn is_header_text(text: Seq<char>) -> bool {
    forall|i: int|
        0 <= i < text.len() ==> {
            let c = #[trigger] text[i];
            c == '\t' || (c as u32 >= 32 && c as u32 != 127)
        }
}

/// `axum::http::HeaderValue::from_str`: whether the text can be the value of a header.
#[verifier::external_body]
fn header_accepts(text: &str) -> (r: bool)
    ensures
        r == is_header_text(text@),
{
    axum::http::HeaderValue::from_str(text).is_ok()
}

/// The headers that tell a service who the user is: `x-user-id` and `x-user-roles`.
#[derive(Debug)]
pub struct IdentityHeaders {
    pub user_id: String,
    pub user_roles: String,
}

/// The token in an `Authorization` header, which is none where the request has none or it is no
/// text.
pub fn bearer_token<'a>(header: Option<&'a str>) -> (r: Result<&'a str, AppError>)
    ensures
        match header {
            Some(value) => match (r, text::behind_prefix(value@, "Bearer "@)) {
                (Ok(token), Some(expected)) => token@ == expected,
                (Err(error), None) => error is AuthMissingToken,
                _ => false,
            },
            None => r matches Err(error) && error is AuthMissingToken,
        },
{
    match header {
        Some(value) => match text::strip_prefix(value, "Bearer ") {
            Some(token) => Ok(token),
            None => Err(AppError::AuthMissingToken),
        },
        None => Err(AppError::AuthMissingToken),
    }
}

/// Whether `r` are the headers for some claims: the user, and the roles with commas in between. The
/// user is looked at first.
pub open spec fn is_identity(r: Result<IdentityHeaders, AppError>, claims: jwt::ClaimsView) -> bool {
    let roles = text::joined(claims.roles, ","@);
    if !is_header_text(claims.sub) {
        r matches Err(AppError::Internal(why)) && why@ == "bad sub"@
    } else if !is_header_text(roles) {
        r matches Err(AppError::Internal(why)) && why@ == "bad roles"@
    } else {
        r matches Ok(headers) && headers.user_id@ == claims.sub && headers.user_roles@ == roles
    }
}

/// The headers for some claims.
pub fn identity_headers(claims: &Claims) -> (r: Result<IdentityHeaders, AppError>)
    ensures
        is_identity(r, claims@),
{
    if !header_accepts(claims.sub.as_str()) {
        return Err(AppError::Internal("bad sub".to_owned()));
    }
    let roles: String = text::join(&claims.roles, ",");
    if !header_accepts(roles.as_str()) {
        return Err(AppError::Internal("bad roles".to_owned()));
    }
    Ok(IdentityHeaders { user_id: claims.sub.clone(), user_roles: roles })
}

/// Whether `r` is what follows the validation of a token: the headers for its claims, or the error.
pub open spec fn is_identified(
    r: Result<IdentityHeaders, AppError>,
    validated: Result<Claims, AppError>,
) -> bool {
    match validated {
        Ok(claims) => is_identity(r, claims@),
        Err(error) => r matches Err(given) && given == error,
    }
}

/// What follows the validation of a token.
pub fn identify(validated: Result<Claims, AppError>) -> (r: Result<IdentityHeaders, AppError>)
    ensures
        is_identified(r, validated),
{
    match validated {
        Ok(claims) => identity_headers(&claims),
        Err(error) => Err(error),
    }
}

/// Whether `r` is what comes of the check of a token when the clock shows a second: the headers for its
/// claims, or the error of validating it.
pub open spec fn is_token_checked(
    r: Result<IdentityHeaders, AppError>,
    public_key: Seq<u8>,
    token: Seq<char>,
    second: u64,
) -> bool {
    exists|validated: Result<Claims, AppError>| #[trigger]
        jwt::is_validated(validated, token, public_key, second) && is_identified(r, validated)
}

/// Whether `r` is what comes of the check of an `Authorization` header when the clock shows a second:
/// without a token the request is refused as such; with one it passes only if the token was signed with
/// the key, names the gateway as its issuer and has not expired, and the headers are those of its
/// claims.
pub open spec fn is_checked(
    r: Result<IdentityHeaders, AppError>,
    public_key: Seq<u8>,
    header: Option<&str>,
    second: u64,
) -> bool {
    let token = match header {
        Some(value) => text::behind_prefix(value@, "Bearer "@),
        None => None,
    };
    match token {
        Some(token) => is_token_checked(r, public_key, token, second),
        None => r matches Err(error) && error is AuthMissingToken,
    }
}

/// The token in an `Authorization` header, if there is one.
pub open spec fn bearer(header: Option<&str>) -> Option<Seq<char>> {
    match header {
        Some(value) => text::behind_prefix(value@, "Bearer "@),
        None => None,
    }
}

/// Checks the `Authorization` header of a request, and gives the headers that are passed on with it.
pub fn jwt_middleware(keys: &JwtKeys, header: Option<&str>) -> (r: Result<IdentityHeaders, AppError>)
    ensures
        exists|second: u64| #[trigger]
            is_checked(r, keys.public_key(), header, second) && (bearer(header) matches Some(token)
                ==> jwt::was_checked(
                token,
                keys.public_key(),
                jwt::issuer_name(),
                jwt::token_verdict(token, keys.public_key(), jwt::issuer_name(), second),
            )),
{
    match bearer_token(header) {
        Ok(token) => {
            let validated: Result<Claims, AppError> = keys.validate(token);
            let ghost second = choose|second: u64| #[trigger]
                jwt::is_validated(validated, token@, keys.public_key(), second) && jwt::was_checked(
                    token@,
                    keys.public_key(),
                    jwt::issuer_name(),
                    jwt::token_verdict(token@, keys.public_key(), jwt::issuer_name(), second),
                );
            let r: Result<IdentityHeaders, AppError> = identify(validated);
            assert(is_token_checked(r, keys.public_key(), token@, second));
            assert(is_checked(r, keys.public_key(), header, second));
            r
        },
        Err(error) => {
            let r: Result<IdentityHeaders, AppError> = Err(error);
            assert(is_checked(r, keys.public_key(), header, 0));
            r
        },
    }
}

/// A request without a bearer token is answered 401.
pub proof fn tokens_are_demanded(
    r: Result<IdentityHeaders, AppError>,
    public_key: Seq<u8>,
    header: Option<&str>,
    second: u64,
)
    requires
        is_checked(r, public_key, header, second),
        header matches Some(value) ==> text::behind_prefix(value@, "Bearer "@) is None,
    ensures
        r matches Err(error) && crate::errors::status_of(error) == 401
            && crate::errors::code_of(error) == "AUTH_MISSING_TOKEN"@,
{
}

/// A request passes only with a token that was signed with the gateway's key, and a service is told
/// the user whom that token names.
pub proof fn only_bearers_pass(
    r: Result<IdentityHeaders, AppError>,
    public_key: Seq<u8>,
    header: Option<&str>,
    second: u64,
)
    requires
        is_checked(r, public_key, header, second),
        r is Ok,
    ensures
        header matches Some(value) && text::behind_prefix(value@, "Bearer "@) matches Some(token)
            && jwt::signed_fields(token, public_key) matches Ok(fields) && jwt::claims_in(
            fields,
        ) matches Some(claims) && claims.iss == jwt::issuer_name() && is_identity(r, claims),
{
}

/// Nobody passes with a token that has expired more than a minute before.
pub proof fn expired_tokens_do_not_pass(
    r: Result<IdentityHeaders, AppError>,
    public_key: Seq<u8>,
    header: Option<&str>,
    second: u64,
)
    requires
        is_checked(r, public_key, header, second),
        r is Ok,
        60 <= second,
    ensures
        header matches Some(value) && text::behind_prefix(value@, "Bearer "@) matches Some(token)
            && jwt::signed_fields(token, public_key) matches Ok(fields) && jwt::claims_in(
            fields,
        ) matches Some(claims) && (claims.exp >= 0 ==> second <= claims.exp + 60),
{
}

/// An internal error comes only with a token that was signed with the gateway's key, and whose user or
/// roles cannot be put into a header.
pub proof fn internal_errors_need_a_signed_token(
    r: Result<IdentityHeaders, AppError>,
    public_key: Seq<u8>,
    header: Option<&str>,
    second: u64,
)
    requires
        is_checked(r, public_key, header, second),
        r matches Err(AppError::Internal(_)),
    ensures
        header matches Some(value) && text::behind_prefix(value@, "Bearer "@) matches Some(token)
            && jwt::signed_fields(token, public_key) matches Ok(fields) && jwt::claims_in(
            fields,
        ) matches Some(claims) && is_identity(r, claims) && !(is_header_text(claims.sub)
            && is_header_text(text::joined(claims.roles, ","@))),
{
}

/// A token is what stands behind `Bearer ` in the header; without that the request is refused.
pub proof fn tokens_stand_behind_bearer(header: Option<&str>, r: Result<&str, AppError>)
    requires
        call_ensures(bearer_token, (header,), r),
    ensures
        r matches Ok(token) ==> header matches Some(value) && value@ == "Bearer "@ + token@,
        r matches Err(error) ==> error is AuthMissingToken && (header matches Some(value)
            ==> forall|token: Seq<char>| value@ != #[trigger] ("Bearer "@ + token)),
{
    if let Some(value) = header {
        let prefix = "Bearer "@;
        if r is Ok {
            assert(value@ =~= value@.take(prefix.len() as int) + value@.skip(prefix.len() as int));
        } else {
            assert forall|token: Seq<char>| value@ != #[trigger] (prefix + token) by {
                if value@ == prefix + token {
                    assert(value@.take(prefix.len() as int) =~= prefix);
                }
            }
        }
    }
}

/// The headers that are passed on name the user and hold all roles, with commas in between; they are made
/// exactly if both are free of control characters other than the tab.
pub proof fn headers_name_user_and_roles(
    claims: &Claims,
    comma: &str,
    roles: String,
    r: Result<IdentityHeaders, AppError>,
)
    requires
        call_ensures(identity_headers, (claims,), r),
        comma@ == ","@,
        call_ensures(text::join, (&claims.roles, comma), roles),
    ensures
        r matches Ok(headers) ==> headers.user_id@ == claims.sub@ && headers.user_roles@ == roles@,
        r is Ok <==> (forall|i: int|
            0 <= i < claims.sub@.len() ==> (#[trigger] claims.sub@[i] == '\t' || (claims.sub@[i] as u32
                >= 32 && claims.sub@[i] as u32 != 127))) && (forall|i: int|
            0 <= i < roles@.len() ==> (#[trigger] roles@[i] == '\t' || (roles@[i] as u32 >= 32
                && roles@[i] as u32 != 127))),
        r matches Err(error) ==> error is Internal,
{
}

/// What follows the validation of a token is the headers for its claims, or the error as it is.
pub proof fn validated_tokens_give_headers(
    validated: Result<Claims, AppError>,
    r: Result<IdentityHeaders, AppError>,
    headers: Result<IdentityHeaders, AppError>,
)
    requires
        call_ensures(identify, (validated,), r),
        validated matches Ok(claims) ==> call_ensures(identity_headers, (&claims,), headers),
    ensures
        validated matches Err(error) ==> r == Err::<IdentityHeaders, AppError>(error),
        validated is Ok ==> (r is Ok <==> headers is Ok),
        validated is Ok && r is Ok ==> r->Ok_0.user_id@ == headers->Ok_0.user_id@
            && r->Ok_0.user_roles@ == headers->Ok_0.user_roles@,
{
}

/// A request passes only with a bearer token that the gateway's key has signed, that names the gateway as
/// its issuer and that the check found valid; and the service is told the user whom it names.
pub proof fn passing_requests_bear_a_valid_token(
    keys: &JwtKeys,
    header: Option<&str>,
    headers: IdentityHeaders,
)
    requires
        call_ensures(jwt_middleware, (keys, header), Ok(headers)),
    ensures
        header is Some,
        exists|token: Seq<char>|
            {
                &&& header->0@ == #[trigger] ("Bearer "@ + token)
                &&& jwt::signed_fields(token, keys.public_key()) matches Ok(fields)
                &&& fields.sub == Some(jwt::FieldView::Text(headers.user_id@))
                &&& fields.iss == Some(jwt::FieldView::Text("securenet-gateway"@))
                &&& jwt::was_checked(token, keys.public_key(), "securenet-gateway"@, Ok(()))
            },
{
    let second = choose|second: u64| #[trigger]
        is_checked(Ok(headers), keys.public_key(), header, second) && (bearer(header) matches Some(
            token,
        ) ==> jwt::was_checked(
            token,
            keys.public_key(),
            jwt::issuer_name(),
            jwt::token_verdict(token, keys.public_key(), jwt::issuer_name(), second),
        ));
    let value = header->0@;
    let prefix = "Bearer "@;
    let token = value.skip(prefix.len() as int);
    assert(value =~= value.take(prefix.len() as int) + token);
    let validated = choose|validated: Result<Claims, AppError>| #[trigger]
        jwt::is_validated(validated, token, keys.public_key(), second) && is_identified(
            Ok(headers),
            validated,
        );
    let verdict = jwt::token_verdict(token, keys.public_key(), jwt::issuer_name(), second);
    assert(verdict is Ok && verdict->Ok_0 == ());
    assert(header->0@ == "Bearer "@ + token);
}

/// A request without a bearer token is refused as such, and one with a token is never: it passes, its
/// token is refused as invalid, or its user or roles make no header.
pub proof fn refusals_of_requests(keys: &JwtKeys, header: Option<&str>, error: AppError)
    requires
        call_ensures(jwt_middleware, (keys, header), Err(error)),
    ensures
        error is AuthMissingToken <==> (header matches Some(value) ==> forall|token: Seq<char>|
            value@ != #[trigger] ("Bearer "@ + token)),
        error is AuthMissingToken || error is AuthInvalidToken || error is Internal,
        error matches AppError::AuthInvalidToken(why) ==> exists|token: Seq<char>|
            {
                &&& header->0@ == #[trigger] ("Bearer "@ + token)
                &&& match jwt::signed_fields(token, keys.public_key()) {
                    Err(text) => why@ == text,
                    Ok(fields) => jwt::claims_in(fields) is Some ==> jwt::was_checked(
                        token,
                        keys.public_key(),
                        "securenet-gateway"@,
                        Err::<(), Seq<char>>(why@),
                    ),
                }
            },
{
    if let Some(value) = header {
        let prefix = "Bearer "@;
        if bearer(header) is Some {
            let rest = value@.skip(prefix.len() as int);
            assert(value@ =~= value@.take(prefix.len() as int) + rest);
            assert(value@ == "Bearer "@ + rest);
        } else {
            assert forall|token: Seq<char>| value@ != #[trigger] (prefix + token) by {
                if value@ == prefix + token {
                    assert(value@.take(prefix.len() as int) =~= prefix);
                }
            }
        }
    }
}

} // verus!
