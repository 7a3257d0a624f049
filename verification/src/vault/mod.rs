//! The vault, which attests machines and issues certificates.
pub mod attestation_verifier;
pub mod issuer;
pub mod log;
pub mod routes;
pub mod state;
pub mod x509;
