//! The gateway, which authenticates users and passes their requests on.
pub mod jwt;
pub mod middleware;
pub mod routes;
