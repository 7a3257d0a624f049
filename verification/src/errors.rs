//! The errors of the services, and how each is answered.
use vstd::prelude::*;

use crate::text;

verus! {

/// `anyhow::Error`.
#[verifier::external_type_specification]
#[verifier::external_body]
pub struct ExAnyhowError(anyhow::Error);

/// `reqwest::Error`.
#[verifier::external_type_specification]
#[verifier::external_body]
pub struct ExReqwestError(reqwest::Error);

/// `jsonwebtoken::errors::Error`.
#[verifier::external_type_specification]
#[verifier::external_body]
pub struct ExTokenError(jsonwebtoken::errors::Error);

/// Every error that can occur in a service, grouped by origin.
///
/// Failed authentication is answered 401, a failure that comes from the vault and a sealed service 503,
/// a missing resource 404 and everything else 500.
#[derive(Debug)]
pub enum AppError {
    AuthMissingToken,
    AuthInvalidToken(String),
    AuthBadCredentials,
    TlsConfig(String),
    CertParse(String),
    VaultUnreachable(String),
    VaultRejected(String),
    ServiceSealed,
    TpmError(String),
    NotFound(String),
    Upstream(String),
    Internal(String),
}

/// The HTTP status that an error is answered with.
pub open spec fn status_of(error: AppError) -> int {
    match error {
        AppError::AuthMissingToken => 401,
        AppError::AuthInvalidToken(_) => 401,
        AppError::AuthBadCredentials => 401,
        AppError::NotFound(_) => 404,
        AppError::ServiceSealed => 503,
        AppError::VaultUnreachable(_) => 503,
        AppError::VaultRejected(_) => 503,
        AppError::TlsConfig(_) => 500,
        AppError::CertParse(_) => 500,
        AppError::TpmError(_) => 500,
        AppError::Upstream(_) => 500,
        AppError::Internal(_) => 500,
    }
}

/// The machine-readable code of an error.
pub open spec fn code_of(error: AppError) -> Seq<char> {
    match error {
        AppError::AuthMissingToken => "AUTH_MISSING_TOKEN"@,
        AppError::AuthInvalidToken(_) => "AUTH_INVALID_TOKEN"@,
        AppError::AuthBadCredentials => "AUTH_BAD_CREDENTIALS"@,
        AppError::TlsConfig(_) => "TLS_CONFIG_ERROR"@,
        AppError::CertParse(_) => "CERT_PARSE_ERROR"@,
        AppError::VaultUnreachable(_) => "VAULT_UNREACHABLE"@,
        AppError::VaultRejected(_) => "VAULT_REJECTED"@,
        AppError::ServiceSealed => "SERVICE_SEALED"@,
        AppError::TpmError(_) => "TPM_ERROR"@,
        AppError::NotFound(_) => "NOT_FOUND"@,
        AppError::Upstream(_) => "UPSTREAM_ERROR"@,
        AppError::Internal(_) => "INTERNAL_ERROR"@,
    }
}

/// The sentence that describes an error.
pub open spec fn message_of(error: AppError) -> Seq<char> {
    match error {
        AppError::AuthMissingToken => "missing or malformed Authorization header"@,
        AppError::AuthInvalidToken(why) => "JWT validation failed: "@ + why@,
        AppError::AuthBadCredentials => "invalid credentials"@,
        AppError::TlsConfig(why) => "TLS configuration error: "@ + why@,
        AppError::CertParse(why) => "certificate parse error: "@ + why@,
        AppError::VaultUnreachable(why) => "vault unreachable: "@ + why@,
        AppError::VaultRejected(why) => "vault rejected unseal request: "@ + why@,
        AppError::ServiceSealed =>
            "service is still sealed \u{2014} vault unseal has not completed"@,
        AppError::TpmError(why) => "TPM operation failed: "@ + why@,
        AppError::NotFound(what) => what@ + " not found"@,
        AppError::Upstream(why) => "upstream service error: "@ + why@,
        AppError::Internal(why) => "internal error: "@ + why@,
    }
}

/// What an error is answered: a status, and a JSON body with the members `error` and `message`.
#[derive(Debug)]
pub struct ErrorResponse {
    pub status: u16,
    pub error: &'static str,
    pub message: String,
}

impl AppError {
    /// The HTTP status that this error is answered with.
    pub fn status_code(&self) -> (r: u16)
        ensures
            r == status_of(*self),
    {
        match self {
            AppError::AuthMissingToken => 401,
            AppError::AuthInvalidToken(_) => 401,
            AppError::AuthBadCredentials => 401,
            AppError::NotFound(_) => 404,
            AppError::ServiceSealed => 503,
            AppError::VaultUnreachable(_) => 503,
            AppError::VaultRejected(_) => 503,
            _ => 500,
        }
    }

    /// The machine-readable code of this error.
    pub fn code(&self) -> (r: &'static str)
        ensures
            r@ == code_of(*self),
    {
        match self {
            AppError::AuthMissingToken => "AUTH_MISSING_TOKEN",
            AppError::AuthInvalidToken(_) => "AUTH_INVALID_TOKEN",
            AppError::AuthBadCredentials => "AUTH_BAD_CREDENTIALS",
            AppError::TlsConfig(_) => "TLS_CONFIG_ERROR",
            AppError::CertParse(_) => "CERT_PARSE_ERROR",
            AppError::VaultUnreachable(_) => "VAULT_UNREACHABLE",
            AppError::VaultRejected(_) => "VAULT_REJECTED",
            AppError::ServiceSealed => "SERVICE_SEALED",
            AppError::TpmError(_) => "TPM_ERROR",
            AppError::NotFound(_) => "NOT_FOUND",
            AppError::Upstream(_) => "UPSTREAM_ERROR",
            AppError::Internal(_) => "INTERNAL_ERROR",
        }
    }

    /// The sentence that describes this error.
    pub fn message(&self) -> (r: String)
        ensures
            r@ == message_of(*self),
    {
        match self {
            AppError::AuthMissingToken => "missing or malformed Authorization header".to_owned(),
            AppError::AuthInvalidToken(why) => text::concat2("JWT validation failed: ", why.as_str()),
            AppError::AuthBadCredentials => "invalid credentials".to_owned(),
            AppError::TlsConfig(why) => text::concat2("TLS configuration error: ", why.as_str()),
            AppError::CertParse(why) => text::concat2("certificate parse error: ", why.as_str()),
            AppError::VaultUnreachable(why) => text::concat2("vault unreachable: ", why.as_str()),
            AppError::VaultRejected(why) => text::concat2(
                "vault rejected unseal request: ",
                why.as_str(),
            ),
            AppError::ServiceSealed =>
                "service is still sealed \u{2014} vault unseal has not completed".to_owned(),
            AppError::TpmError(why) => text::concat2("TPM operation failed: ", why.as_str()),
            AppError::NotFound(what) => text::concat2(what.as_str(), " not found"),
            AppError::Upstream(why) => text::concat2("upstream service error: ", why.as_str()),
            AppError::Internal(why) => text::concat2("internal error: ", why.as_str()),
        }
    }

    /// What this error is answered.
    pub fn into_response(self) -> (r: ErrorResponse)
        ensures
            r.status == status_of(self),
            r.error@ == code_of(self),
            r.message@ == message_of(self),
    {
        ErrorResponse { status: self.status_code(), error: self.code(), message: self.message() }
    }
}

/// The text that `anyhow::Error` displays, which is that of any error inside it. Nothing is said of
/// it.
#[verifier::external_body]
fn anyhow_text(error: &anyhow::Error) -> (r: String) {
    error.to_string()
}

/// The text that a `reqwest::Error` displays.
pub uninterp spec fn reqwest_error_display(error: reqwest::Error) -> Seq<char>;

/// The text that a `jsonwebtoken::errors::Error` displays.
pub uninterp spec fn token_error_display(error: jsonwebtoken::errors::Error) -> Seq<char>;

/// `reqwest::Error` as it is displayed.
#[verifier::external_body]
fn reqwest_text(error: &reqwest::Error) -> (r: String)
    ensures
        r@ == reqwest_error_display(*error),
{
    error.to_string()
}

/// `jsonwebtoken::errors::Error` as it is displayed.
#[verifier::external_body]
pub(crate) fn token_error_text(error: &jsonwebtoken::errors::Error) -> (r: String)
    ensures
        r@ == token_error_display(*error),
{
    error.to_string()
}

/// Whether an `anyhow::Error` has been displayed as this text.
pub closed spec fn anyhow_said(error: anyhow::Error, why: String) -> bool {
    call_ensures(anyhow_text, (&error,), why)
}

/// A text counts as displayed only if `anyhow_text` has given it.
proof fn said_texts_were_displayed(error: anyhow::Error, why: String)
    ensures
        anyhow_said(error, why) ==> call_ensures(anyhow_text, (&error,), why),
{
}

impl From<anyhow::Error> for AppError {
    fn from(error: anyhow::Error) -> (r: Self)
        ensures
            r matches AppError::Internal(why) && anyhow_said(error, why),
    {
        AppError::Internal(anyhow_text(&error))
    }
}

impl vstd::std_specs::convert::FromSpecImpl<anyhow::Error> for AppError {
    open spec fn obeys_from_spec() -> bool {
        false
    }

    open spec fn from_spec(error: anyhow::Error) -> Self {
        arbitrary()
    }
}

impl From<reqwest::Error> for AppError {
    fn from(error: reqwest::Error) -> (r: Self)
        ensures
            r matches AppError::Upstream(why) && why@ == reqwest_error_display(error),
    {
        AppError::Upstream(reqwest_text(&error))
    }
}

impl vstd::std_specs::convert::FromSpecImpl<reqwest::Error> for AppError {
    open spec fn obeys_from_spec() -> bool {
        false
    }

    open spec fn from_spec(error: reqwest::Error) -> Self {
        arbitrary()
    }
}

impl From<jsonwebtoken::errors::Error> for AppError {
    fn from(error: jsonwebtoken::errors::Error) -> (r: Self)
        ensures
            r matches AppError::AuthInvalidToken(why) && why@ == token_error_display(error),
    {
        AppError::AuthInvalidToken(token_error_text(&error))
    }
}

impl vstd::std_specs::convert::FromSpecImpl<jsonwebtoken::errors::Error> for AppError {
    open spec fn obeys_from_spec() -> bool {
        false
    }

    open spec fn from_spec(error: jsonwebtoken::errors::Error) -> Self {
        arbitrary()
    }
}

/// Two errors have the same code only if they are of the same variant, and then they are answered
/// with the same status.
pub proof fn codes_tell_errors_apart(a: AppError, b: AppError)
    requires
        code_of(a) == code_of(b),
    ensures
        match (a, b) {
            (AppError::AuthMissingToken, AppError::AuthMissingToken) => true,
            (AppError::AuthInvalidToken(_), AppError::AuthInvalidToken(_)) => true,
            (AppError::AuthBadCredentials, AppError::AuthBadCredentials) => true,
            (AppError::TlsConfig(_), AppError::TlsConfig(_)) => true,
            (AppError::CertParse(_), AppError::CertParse(_)) => true,
            (AppError::VaultUnreachable(_), AppError::VaultUnreachable(_)) => true,
            (AppError::VaultRejected(_), AppError::VaultRejected(_)) => true,
            (AppError::ServiceSealed, AppError::ServiceSealed) => true,
            (AppError::TpmError(_), AppError::TpmError(_)) => true,
            (AppError::NotFound(_), AppError::NotFound(_)) => true,
            (AppError::Upstream(_), AppError::Upstream(_)) => true,
            (AppError::Internal(_), AppError::Internal(_)) => true,
            _ => false,
        },
        status_of(a) == status_of(b),
{
    reveal_strlit("AUTH_MISSING_TOKEN");
    reveal_strlit("AUTH_INVALID_TOKEN");
    reveal_strlit("AUTH_BAD_CREDENTIALS");
    reveal_strlit("TLS_CONFIG_ERROR");
    reveal_strlit("CERT_PARSE_ERROR");
    reveal_strlit("VAULT_UNREACHABLE");
    reveal_strlit("VAULT_REJECTED");
    reveal_strlit("SERVICE_SEALED");
    reveal_strlit("TPM_ERROR");
    reveal_strlit("NOT_FOUND");
    reveal_strlit("UPSTREAM_ERROR");
    reveal_strlit("INTERNAL_ERROR");
    let ca = code_of(a);
    let cb = code_of(b);
    // The length, the first letter and the sixth letter tell all codes apart.
    assert(ca.len() == cb.len() && ca[0] == cb[0] && ca[5] == cb[5]);
}

/// What an error is answered is its status, its code and its message.
pub proof fn answers_tell_the_error(
    error: AppError,
    status: u16,
    code: &'static str,
    message: String,
    r: ErrorResponse,
)
    requires
        call_ensures(AppError::status_code, (&error,), status),
        call_ensures(AppError::code, (&error,), code),
        call_ensures(AppError::message, (&error,), message),
        call_ensures(AppError::into_response, (error,), r),
    ensures
        r.status == status,
        r.error@ == code@,
        r.message@ == message@,
{
}

/// Failed authentication is answered 401, a missing resource 404, a failure that comes from the vault
/// and a sealed service 503, and everything else 500.
pub proof fn statuses_tell_the_origin(error: &AppError, status: u16)
    requires
        call_ensures(AppError::status_code, (error,), status),
    ensures
        status == 401 <==> error is AuthMissingToken || error is AuthInvalidToken
            || error is AuthBadCredentials,
        status == 404 <==> error is NotFound,
        status == 503 <==> error is VaultUnreachable || error is VaultRejected
            || error is ServiceSealed,
        status == 500 <==> error is TlsConfig || error is CertParse || error is TpmError
            || error is Upstream || error is Internal,
{
}

/// Every code is in capitals and tells the variant.
pub proof fn codes_name_the_variant(error: &AppError, code: &'static str)
    requires
        call_ensures(AppError::code, (error,), code),
    ensures
        error is AuthMissingToken <==> code@ == "AUTH_MISSING_TOKEN"@,
        error is AuthInvalidToken <==> code@ == "AUTH_INVALID_TOKEN"@,
        error is AuthBadCredentials <==> code@ == "AUTH_BAD_CREDENTIALS"@,
        error is TlsConfig <==> code@ == "TLS_CONFIG_ERROR"@,
        error is CertParse <==> code@ == "CERT_PARSE_ERROR"@,
        error is VaultUnreachable <==> code@ == "VAULT_UNREACHABLE"@,
        error is VaultRejected <==> code@ == "VAULT_REJECTED"@,
        error is ServiceSealed <==> code@ == "SERVICE_SEALED"@,
        error is TpmError <==> code@ == "TPM_ERROR"@,
        error is NotFound <==> code@ == "NOT_FOUND"@,
        error is Upstream <==> code@ == "UPSTREAM_ERROR"@,
        error is Internal <==> code@ == "INTERNAL_ERROR"@,
{
    reveal_strlit("AUTH_MISSING_TOKEN");
    reveal_strlit("AUTH_INVALID_TOKEN");
    reveal_strlit("AUTH_BAD_CREDENTIALS");
    reveal_strlit("TLS_CONFIG_ERROR");
    reveal_strlit("CERT_PARSE_ERROR");
    reveal_strlit("VAULT_UNREACHABLE");
    reveal_strlit("VAULT_REJECTED");
    reveal_strlit("SERVICE_SEALED");
    reveal_strlit("TPM_ERROR");
    reveal_strlit("NOT_FOUND");
    reveal_strlit("UPSTREAM_ERROR");
    reveal_strlit("INTERNAL_ERROR");
    // The length, the first letter and the sixth letter tell all codes apart.
    let c = (code@.len(), code@[0], code@[5]);
    assert(c == (code@.len(), code@[0], code@[5]));
}

/// The message of an error ends with the text that it carries; that of a missing resource begins with
/// its name.
pub proof fn messages_carry_the_text(error: &AppError, message: String)
    requires
        call_ensures(AppError::message, (error,), message),
    ensures
        match *error {
            AppError::AuthInvalidToken(why) => message@ == "JWT validation failed: "@ + why@,
            AppError::TlsConfig(why) => message@ == "TLS configuration error: "@ + why@,
            AppError::CertParse(why) => message@ == "certificate parse error: "@ + why@,
            AppError::VaultUnreachable(why) => message@ == "vault unreachable: "@ + why@,
            AppError::VaultRejected(why) => message@ == "vault rejected unseal request: "@ + why@,
            AppError::TpmError(why) => message@ == "TPM operation failed: "@ + why@,
            AppError::NotFound(what) => message@ == what@ + " not found"@,
            AppError::Upstream(why) => message@ == "upstream service error: "@ + why@,
            AppError::Internal(why) => message@ == "internal error: "@ + why@,
            AppError::AuthMissingToken => message@ == "missing or malformed Authorization header"@,
            AppError::AuthBadCredentials => message@ == "invalid credentials"@,
            AppError::ServiceSealed => message@
                == "service is still sealed \u{2014} vault unseal has not completed"@,
        },
{
}

/// Errors of other crates keep their texts: that of a request to another service is answered 500, that
/// of a token 401.
pub proof fn outside_errors_keep_their_texts(
    sent: reqwest::Error,
    upstream: AppError,
    token: jsonwebtoken::errors::Error,
    invalid: AppError,
    other: anyhow::Error,
    internal: AppError,
)
    requires
        call_ensures(<AppError as From<reqwest::Error>>::from, (sent,), upstream),
        call_ensures(<AppError as From<jsonwebtoken::errors::Error>>::from, (token,), invalid),
        call_ensures(<AppError as From<anyhow::Error>>::from, (other,), internal),
    ensures
        upstream matches AppError::Upstream(why) && why@ == reqwest_error_display(sent),
        invalid matches AppError::AuthInvalidToken(why) && why@ == token_error_display(token),
        internal matches AppError::Internal(why) && anyhow_said(other, why),
{
}

} // verus!
