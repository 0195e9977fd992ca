//! The signature-and-claims verifier: the ordered checks applied to an
//! identity token, each short-circuiting on first failure, with the laws that
//! hold of every run.

use vstd::prelude::*;

use crate::claims::{check_claims, check_claims_spec, IdTokenClaims, IdTokenClaimsView};
use crate::error::{Error, ErrorView};
use crate::jwt::{
    current_timestamp, decode_rs256, key_from_rsa_pem, parse_header, parsed_header,
    payload_claims, rsa_pem_ok,
};
use crate::keys::SigningKeySet;
use crate::pairs::lookup;

verus! {

/// What any outcome of the RS256 decoder must satisfy for a given token:
/// claims only ever come out of a header that parsed and named RS256, and
/// they are the token payload's claims.
pub open spec fn decode_consistent(dec: Option<IdTokenClaimsView>, token: Seq<char>) -> bool {
    dec matches Some(c) ==> {
        &&& payload_claims(token) == Some(c)
        &&& parsed_header(token) matches Some(h) && h.0
    }
}

/// The verifier's outcome, given the decoder's: the checks run in their fixed
/// order, so structural and cryptographic problems are reported before
/// audience, issuer and time problems, and the first failure wins.
pub open spec fn verify_outcome(
    token: Seq<char>,
    project: Seq<char>,
    tolerance: u64,
    keys: Seq<(Seq<char>, Seq<char>)>,
    dec: Option<IdTokenClaimsView>,
    now: u64,
) -> Result<IdTokenClaimsView, ErrorView> {
    match parsed_header(token) {
        None => Err(ErrorView::Token("Malformed token header!"@)),
        Some(h) => match h.1 {
            None => Err(ErrorView::Token("Missing kid in token header!"@)),
            Some(kid) => match lookup(keys, kid) {
                None => Err(ErrorView::Token("No match decoding key!"@)),
                Some(pem) => if !rsa_pem_ok(pem) {
                    Err(ErrorView::Token("Failed to parse decoding key!"@))
                } else {
                    match dec {
                        None => Err(ErrorView::Token("Invalid ID token!"@)),
                        Some(c) => check_claims_spec(c, project, tolerance, now),
                    }
                },
            },
        },
    }
}

/// What every run of the verifier guarantees: its result is the outcome of
/// the ordered checks for some decoder verdict that is consistent with the
/// token.
pub open spec fn verify_ensures(
    token: Seq<char>,
    project: Seq<char>,
    tolerance: u64,
    keys: Seq<(Seq<char>, Seq<char>)>,
    now: u64,
    r: Result<IdTokenClaimsView, ErrorView>,
) -> bool {
    exists|dec: Option<IdTokenClaimsView>|
        decode_consistent(dec, token) && r == verify_outcome(
            token,
            project,
            tolerance,
            keys,
            dec,
            now,
        )
}

/// The view of a verification result.
pub open spec fn result_view(r: Result<IdTokenClaims, Error>) -> Result<
    IdTokenClaimsView,
    ErrorView,
> {
    match r {
        Ok(c) => Ok(c@),
        Err(e) => Err(e@),
    }
}

/// Verifies an identity token against the given key set, project id and
/// clock reading: header parse, key resolution, RS256 signature verification,
/// then the claim checks, in that order.
pub fn verify_with_key_set(
    id_token: &str,
    project_id: &str,
    tolerance: u64,
    keys: &SigningKeySet,
    now: u64,
) -> (r: Result<IdTokenClaims, Error>)
    ensures
        verify_ensures(id_token@, project_id@, tolerance, keys@, now, result_view(r)),
{
    let ghost none_dec: Option<IdTokenClaimsView> = None;
    let header = match parse_header(id_token) {
        None => {
            let r = Err(Error::Token("Malformed token header!".to_owned()));
            proof {
                assert(decode_consistent(none_dec, id_token@) && result_view(r) == verify_outcome(
                    id_token@,
                    project_id@,
                    tolerance,
                    keys@,
                    none_dec,
                    now,
                ));
            }
            return r;
        },
        Some(h) => h,
    };
    let kid = match header.1 {
        None => {
            let r = Err(Error::Token("Missing kid in token header!".to_owned()));
            proof {
                assert(decode_consistent(none_dec, id_token@) && result_view(r) == verify_outcome(
                    id_token@,
                    project_id@,
                    tolerance,
                    keys@,
                    none_dec,
                    now,
                ));
            }
            return r;
        },
        Some(kid) => kid,
    };
    let pem = match keys.get_signing_key(kid.as_str()) {
        None => {
            let r = Err(Error::Token("No match decoding key!".to_owned()));
            proof {
                assert(decode_consistent(none_dec, id_token@) && result_view(r) == verify_outcome(
                    id_token@,
                    project_id@,
                    tolerance,
                    keys@,
                    none_dec,
                    now,
                ));
            }
            return r;
        },
        Some(pem) => pem,
    };
    let decoding_key = match key_from_rsa_pem(pem.as_str()) {
        None => {
            let r = Err(Error::Token("Failed to parse decoding key!".to_owned()));
            proof {
                assert(decode_consistent(none_dec, id_token@) && result_view(r) == verify_outcome(
                    id_token@,
                    project_id@,
                    tolerance,
                    keys@,
                    none_dec,
                    now,
                ));
            }
            return r;
        },
        Some(k) => k,
    };
    let decoded = match decode_rs256(id_token, &decoding_key) {
        None => {
            let r = Err(Error::Token("Invalid ID token!".to_owned()));
            proof {
                assert(decode_consistent(none_dec, id_token@) && result_view(r) == verify_outcome(
                    id_token@,
                    project_id@,
                    tolerance,
                    keys@,
                    none_dec,
                    now,
                ));
            }
            return r;
        },
        Some(c) => c,
    };
    let ghost some_dec: Option<IdTokenClaimsView> = Some(decoded@);
    match check_claims(&decoded, project_id, tolerance, now) {
        Ok(_) => {
            let r = Ok(decoded);
            proof {
                assert(decode_consistent(some_dec, id_token@) && result_view(r) == verify_outcome(
                    id_token@,
                    project_id@,
                    tolerance,
                    keys@,
                    some_dec,
                    now,
                ));
            }
            r
        },
        Err(e) => {
            let r = Err(e);
            proof {
                assert(decode_consistent(some_dec, id_token@) && result_view(r) == verify_outcome(
                    id_token@,
                    project_id@,
                    tolerance,
                    keys@,
                    some_dec,
                    now,
                ));
            }
            r
        },
    }
}

/// Verifies an identity token with the given clock-skew tolerance, reading
/// the clock at the call.
pub fn verify_id_token_with_tolerance(
    id_token: &str,
    project_id: &str,
    tolerance: u64,
    keys: &SigningKeySet,
) -> (r: Result<IdTokenClaims, Error>)
    ensures
        exists|now: u64|
            verify_ensures(id_token@, project_id@, tolerance, keys@, now, result_view(r)),
{
    let now = current_timestamp();
    verify_with_key_set(id_token, project_id, tolerance, keys, now)
}

/// Verifies an identity token with exact-time enforcement: tolerance zero.
pub fn verify_id_token(id_token: &str, project_id: &str, keys: &SigningKeySet) -> (r: Result<
    IdTokenClaims,
    Error,
>)
    ensures
        exists|now: u64| verify_ensures(id_token@, project_id@, 0, keys@, now, result_view(r)),
{
    verify_id_token_with_tolerance(id_token, project_id, 0, keys)
}

/// Idempotence: two runs of the verifier on the same token, project id,
/// tolerance and key set return identical claims whenever both succeed, even
/// across different clock readings.
pub proof fn lemma_verify_idempotent(
    token: Seq<char>,
    project: Seq<char>,
    tolerance: u64,
    keys: Seq<(Seq<char>, Seq<char>)>,
    now1: u64,
    now2: u64,
    r1: Result<IdTokenClaimsView, ErrorView>,
    r2: Result<IdTokenClaimsView, ErrorView>,
)
    requires
        verify_ensures(token, project, tolerance, keys, now1, r1),
        verify_ensures(token, project, tolerance, keys, now2, r2),
        r1 is Ok,
        r2 is Ok,
    ensures
        r1 == r2,
{
    let dec1 = choose|dec: Option<IdTokenClaimsView>|
        decode_consistent(dec, token) && r1 == verify_outcome(
            token,
            project,
            tolerance,
            keys,
            dec,
            now1,
        );
    let dec2 = choose|dec: Option<IdTokenClaimsView>|
        decode_consistent(dec, token) && r2 == verify_outcome(
            token,
            project,
            tolerance,
            keys,
            dec,
            now2,
        );
    assert(payload_claims(token) == Some(dec1->Some_0));
    assert(payload_claims(token) == Some(dec2->Some_0));
}

/// Algorithm pinning: a token whose header parses but names any signing
/// algorithm other than RS256 never verifies, whatever the rest of it holds.
pub proof fn lemma_algorithm_pinned(
    token: Seq<char>,
    project: Seq<char>,
    tolerance: u64,
    keys: Seq<(Seq<char>, Seq<char>)>,
    now: u64,
    r: Result<IdTokenClaimsView, ErrorView>,
)
    requires
        verify_ensures(token, project, tolerance, keys, now, r),
        parsed_header(token) matches Some(h) && !h.0,
    ensures
        r is Err,
{
}

/// Key miss: a token whose header parses and names a key identifier that is
/// absent from the key set fails with the no-matching-key error, never a
/// silent pass.
pub proof fn lemma_key_miss(
    token: Seq<char>,
    project: Seq<char>,
    tolerance: u64,
    keys: Seq<(Seq<char>, Seq<char>)>,
    now: u64,
    r: Result<IdTokenClaimsView, ErrorView>,
)
    requires
        verify_ensures(token, project, tolerance, keys, now, r),
        parsed_header(token) matches Some(h) && h.1 matches Some(kid) && lookup(keys, kid)
            is None,
    ensures
        r == Err::<IdTokenClaimsView, ErrorView>(ErrorView::Token("No match decoding key!"@)),
{
}

/// A verification that succeeds asserts exactly the caller's project id as
/// audience, the fixed issuer for that project, timestamps valid at the clock
/// reading under the given tolerance, and the claims carried by the token's
/// own payload.
pub proof fn lemma_verified_claims_valid(
    token: Seq<char>,
    project: Seq<char>,
    tolerance: u64,
    keys: Seq<(Seq<char>, Seq<char>)>,
    now: u64,
    c: IdTokenClaimsView,
)
    requires
        verify_ensures(token, project, tolerance, keys, now, Ok(c)),
    ensures
        c.aud == project,
        c.iss == crate::claims::issuer_for(project),
        !crate::claims::expired(c.exp, tolerance, now),
        !crate::claims::not_yet_valid(c.iat, tolerance, now),
        payload_claims(token) == Some(c),
        parsed_header(token) matches Some(h) && h.0,
{
}

} // verus!
