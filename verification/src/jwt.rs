//! Trusted items around jsonwebtoken: header inspection, key-material
//! parsing, RS256 signature verification and the clock reading.

use vstd::prelude::*;

use crate::claims::{IdTokenClaims, IdTokenClaimsView};
use crate::pairs::opt_view;

verus! {

// Declared so that values of jsonwebtoken's opaque key type can pass through
// verified signatures.
#[verifier::external_type_specification]
#[verifier::external_body]
pub struct ExDecodingKey(jsonwebtoken::DecodingKey);

/// What jsonwebtoken::decode_header extracts from a token: `None` when the
/// envelope is malformed, otherwise whether the header names RS256 as the
/// signing algorithm, and the key identifier when one is present.
pub uninterp spec fn parsed_header(token: Seq<char>) -> Option<(bool, Option<Seq<char>>)>;

/// Relies on jsonwebtoken::decode_header: it splits the envelope and parses
/// the header, a function of the token text alone.
#[verifier::external_body]
pub(crate) fn parse_header(token: &str) -> (r: Option<(bool, Option<String>)>)
    ensures
        match r {
            None => parsed_header(token@) is None,
            Some(h) => parsed_header(token@) == Some((h.0, opt_view(h.1))),
        },
{
    match jsonwebtoken::decode_header(token) {
        Ok(h) => Some((matches!(h.alg, jsonwebtoken::Algorithm::RS256), h.kid)),
        Err(_) => None,
    }
}

/// Whether jsonwebtoken accepts the text as PEM-encoded RSA key material: a
/// function of the text alone.
pub uninterp spec fn rsa_pem_ok(pem: Seq<char>) -> bool;

/// Relies on jsonwebtoken::DecodingKey::from_rsa_pem: whether the key
/// material parses is a function of its bytes alone.
#[verifier::external_body]
pub(crate) fn key_from_rsa_pem(pem: &str) -> (r: Option<jsonwebtoken::DecodingKey>)
    ensures
        r is Some <==> rsa_pem_ok(pem@),
{
    jsonwebtoken::DecodingKey::from_rsa_pem(pem.as_bytes()).ok()
}

/// The identity-claims record carried in a token's payload: `None` when the
/// payload is not a JSON object holding the six claim fields with their
/// expected types. A function of the token text alone.
pub uninterp spec fn payload_claims(token: Seq<char>) -> Option<IdTokenClaimsView>;

/// Relies on jsonwebtoken::decode with RS256 as the only accepted algorithm:
/// when it succeeds, the header parsed and named RS256, and the record
/// returned is the token payload's claims. Success itself also depends on the
/// key, the signature and the clock, so nothing is promised of it. The
/// decoder's own audience validation is switched off here; the verified
/// caller performs the audience check with its own error reporting.
#[verifier::external_body]
pub(crate) fn decode_rs256(token: &str, key: &jsonwebtoken::DecodingKey) -> (r: Option<
    IdTokenClaims,
>)
    ensures
        r matches Some(c) ==> {
            &&& payload_claims(token@) == Some(c@)
            &&& parsed_header(token@) matches Some(h) && h.0
        },
{
    let mut validation = jsonwebtoken::Validation::new(jsonwebtoken::Algorithm::RS256);
    validation.validate_aud = false;
    let v = jsonwebtoken::decode::<serde_json::Value>(token, key, &validation).ok()?.claims;
    Some(IdTokenClaims {
        exp: v.get("exp")?.as_u64()?,
        iat: v.get("iat")?.as_u64()?,
        iss: v.get("iss")?.as_str()?.to_string(),
        sub: v.get("sub")?.as_str()?.to_string(),
        auth_time: v.get("auth_time")?.as_u64()?,
        aud: v.get("aud")?.as_str()?.to_string(),
    })
}

/// Relies on jsonwebtoken::get_current_timestamp: seconds since the Unix
/// epoch read from the system clock. Nothing is promised of the value.
#[verifier::external_body]
pub(crate) fn current_timestamp() -> u64 {
    jsonwebtoken::get_current_timestamp()
}

} // verus!
