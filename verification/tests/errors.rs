use securenet::errors::AppError;

fn all() -> Vec<(AppError, u16, &'static str, &'static str)> {
    let s = || "why".to_string();
    vec![
        (
            AppError::AuthMissingToken,
            401,
            "AUTH_MISSING_TOKEN",
            "missing or malformed Authorization header",
        ),
        (AppError::AuthInvalidToken(s()), 401, "AUTH_INVALID_TOKEN", "JWT validation failed: why"),
        (AppError::AuthBadCredentials, 401, "AUTH_BAD_CREDENTIALS", "invalid credentials"),
        (AppError::TlsConfig(s()), 500, "TLS_CONFIG_ERROR", "TLS configuration error: why"),
        (AppError::CertParse(s()), 500, "CERT_PARSE_ERROR", "certificate parse error: why"),
        (AppError::VaultUnreachable(s()), 503, "VAULT_UNREACHABLE", "vault unreachable: why"),
        (AppError::VaultRejected(s()), 503, "VAULT_REJECTED", "vault rejected unseal request: why"),
        (
            AppError::ServiceSealed,
            503,
            "SERVICE_SEALED",
            "service is still sealed — vault unseal has not completed",
        ),
        (AppError::TpmError(s()), 500, "TPM_ERROR", "TPM operation failed: why"),
        (AppError::NotFound(s()), 404, "NOT_FOUND", "why not found"),
        (AppError::Upstream(s()), 500, "UPSTREAM_ERROR", "upstream service error: why"),
        (AppError::Internal(s()), 500, "INTERNAL_ERROR", "internal error: why"),
    ]
}

#[test]
fn every_error_has_its_answer() {
    for (error, status, code, message) in all() {
        assert_eq!(error.status_code(), status);
        assert_eq!(error.code(), code);
        assert_eq!(error.message(), message);
        let response = error.into_response();
        assert_eq!((response.status, response.error), (status, code));
        assert_eq!(response.message, message);
    }
}

#[test]
fn codes_differ() {
    let codes: std::collections::HashSet<_> = all().iter().map(|e| e.0.code()).collect();
    assert_eq!(codes.len(), 12);
}

#[test]
fn errors_of_other_libraries_are_converted() {
    let e = AppError::from(anyhow::Error::msg("boom"));
    assert_eq!(e.message(), "internal error: boom");

    let e = AppError::from(jsonwebtoken::errors::Error::from(
        jsonwebtoken::errors::ErrorKind::InvalidToken,
    ));
    assert_eq!(e.message(), "JWT validation failed: InvalidToken");

    let outside = reqwest::Client::new().get("no address").build().unwrap_err();
    let text = outside.to_string();
    let e = AppError::from(outside);
    assert_eq!(e.message(), format!("upstream service error: {text}"));
}
