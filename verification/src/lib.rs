//! Verification engine for identity tokens issued by a third-party provider.
//!
//! The library verifies an identity token against a set of published RSA
//! signing keys (audience, issuer, expiry and not-before claims, with a
//! caller-supplied clock-skew tolerance) and parses the provider's responses
//! for the refresh-token exchange. Network transport and the clock at the
//! call boundary live with the host application; the decision logic here is
//! verified.

pub mod error;
pub mod claims;
pub mod json;
pub mod jwt;
pub mod keys;
pub mod pairs;
pub mod refresh;
pub mod verify;

pub use error::Error;
pub use error::ErrorView;
