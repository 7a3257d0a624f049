//! SecureNet: the rules of a small zero-trust service mesh.
//!
//! A vault attests machines and issues five-minute certificates; every service
//! starts locked, unseals with the vault, and renews its certificate before it
//! expires; a gateway authenticates users and proxies their requests.

pub mod attestation;
pub mod boot;
pub mod chaos;
pub mod clock;
pub mod encoding;
pub mod errors;
pub mod gateway;
pub mod handshake;
pub mod identity;
pub mod models;
pub mod orders;
pub mod revocation;
pub mod rotation;
pub mod share;
pub mod table;
pub mod text;
pub mod tls;
pub mod users;
pub mod vault;
pub mod vault_client;

pub use errors::AppError;
pub use models::CertBundle;
pub use models::Claims;
pub use models::UnsealRequest;
pub use models::UnsealResponse;
