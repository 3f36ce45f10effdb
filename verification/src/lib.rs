//! A two-key JWKS credential service: key store, JWK conversion and RS256 token issuance.

pub mod base64url;
pub mod clock;
pub mod json;
pub mod jwk;
pub mod jwt;
pub mod keystore;
pub mod routes;
pub mod rsa_key;
