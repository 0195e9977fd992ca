//! The verified payload of an identity token and the claim checks applied to
//! it: audience, issuer, expiry and not-before, with a symmetric clock-skew
//! tolerance.

use vstd::prelude::*;
use vstd::string::StringExecFns;

use crate::error::{Error, ErrorView};

verus! {

/// The claims asserted by a verified identity token. Only constructed after
/// the signature and structural checks pass.
pub struct IdTokenClaims {
    /// Expiration time, seconds since the Unix epoch.
    pub exp: u64,
    /// Issued-at time, seconds since the Unix epoch.
    pub iat: u64,
    /// Issuer.
    pub iss: String,
    /// Subject.
    pub sub: String,
    /// Authentication time, seconds since the Unix epoch.
    pub auth_time: u64,
    /// Audience.
    pub aud: String,
}

/// The mathematical shape of [`IdTokenClaims`].
pub struct IdTokenClaimsView {
    pub exp: u64,
    pub iat: u64,
    pub iss: Seq<char>,
    pub sub: Seq<char>,
    pub auth_time: u64,
    pub aud: Seq<char>,
}

impl View for IdTokenClaims {
    type V = IdTokenClaimsView;

    open spec fn view(&self) -> IdTokenClaimsView {
        IdTokenClaimsView {
            exp: self.exp,
            iat: self.iat,
            iss: self.iss@,
            sub: self.sub@,
            auth_time: self.auth_time,
            aud: self.aud@,
        }
    }
}

/// The only issuer accepted for a given project id.
pub open spec fn issuer_for(project: Seq<char>) -> Seq<char> {
    "https://securetoken.google.com/"@ + project
}

/// A token is expired when its expiration time, pushed out by the tolerance,
/// does not lie strictly after the clock reading. Equality counts as expired.
pub open spec fn expired(exp: u64, tolerance: u64, now: u64) -> bool {
    exp + tolerance <= now
}

/// A token is not yet valid when its issued-at time lies strictly after the
/// clock reading pushed out by the tolerance.
pub open spec fn not_yet_valid(iat: u64, tolerance: u64, now: u64) -> bool {
    iat > now + tolerance
}

/// The outcome of the claim checks, in their fixed order: audience, issuer,
/// expiry, not-before. The first failing check names the offending value.
pub open spec fn check_claims_spec(
    c: IdTokenClaimsView,
    project: Seq<char>,
    tolerance: u64,
    now: u64,
) -> Result<IdTokenClaimsView, ErrorView> {
    if c.aud != project {
        Err(ErrorView::Token("Invalid project ID: "@ + c.aud))
    } else if c.iss != issuer_for(project) {
        Err(ErrorView::Token("Invalid issuer: "@ + c.iss))
    } else if expired(c.exp, tolerance, now) {
        Err(ErrorView::Token("Token is expired!"@))
    } else if not_yet_valid(c.iat, tolerance, now) {
        Err(ErrorView::Token("Token isn't valid yet!"@))
    } else {
        Ok(c)
    }
}

/// Runs the claim checks against the given project id and clock reading,
/// short-circuiting on the first failure.
pub fn check_claims(claims: &IdTokenClaims, project_id: &str, tolerance: u64, now: u64) -> (r:
    Result<(), Error>)
    ensures
        match r {
            Ok(_) => check_claims_spec(claims@, project_id@, tolerance, now) == Ok::<
                IdTokenClaimsView,
                ErrorView,
            >(claims@),
            Err(e) => check_claims_spec(claims@, project_id@, tolerance, now) == Err::<
                IdTokenClaimsView,
                ErrorView,
            >(e@),
        },
{
    let project_owned: String = project_id.to_owned();
    if !(claims.aud == project_owned) {
        let mut m: String = "Invalid project ID: ".to_owned();
        m.append(claims.aud.as_str());
        return Err(Error::Token(m));
    }
    let mut expected_iss: String = "https://securetoken.google.com/".to_owned();
    expected_iss.append(project_id);
    if !(claims.iss == expected_iss) {
        let mut m: String = "Invalid issuer: ".to_owned();
        m.append(claims.iss.as_str());
        return Err(Error::Token(m));
    }
    if claims.exp as u128 + tolerance as u128 <= now as u128 {
        return Err(Error::Token("Token is expired!".to_owned()));
    }
    if claims.iat as u128 > now as u128 + tolerance as u128 {
        return Err(Error::Token("Token isn't valid yet!".to_owned()));
    }
    Ok(())
}

/// Audience boundary: a claims record whose audience differs from the project
/// id is rejected with an error naming that audience, and the audience check
/// passes exactly when the two agree.
pub proof fn lemma_audience_boundary(
    c: IdTokenClaimsView,
    project: Seq<char>,
    tolerance: u64,
    now: u64,
)
    ensures
        c.aud != project ==> check_claims_spec(c, project, tolerance, now) == Err::<
            IdTokenClaimsView,
            ErrorView,
        >(ErrorView::Token("Invalid project ID: "@ + c.aud)),
        (c.aud == project && c.iss == issuer_for(project) && !expired(c.exp, tolerance, now)
            && !not_yet_valid(c.iat, tolerance, now)) ==> check_claims_spec(
            c,
            project,
            tolerance,
            now,
        ) == Ok::<IdTokenClaimsView, ErrorView>(c),
{
}

/// Expiry boundary: with tolerance zero, a token expiring exactly at the
/// clock reading is expired while one expiring a second later is not; and
/// with any tolerance, a token whose expiration lies more than the tolerance
/// before the clock reading is expired. In each expired case the checks
/// report the expiry error whenever audience and issuer agree.
pub proof fn lemma_expiry_boundary(c: IdTokenClaimsView, project: Seq<char>, tolerance: u64, now: u64)
    ensures
        c.exp == now ==> expired(c.exp, 0, now),
        c.exp == now + 1 ==> !expired(c.exp, 0, now),
        c.exp + tolerance + 1 == now ==> expired(c.exp, tolerance, now),
        (c.aud == project && c.iss == issuer_for(project) && expired(c.exp, tolerance, now))
            ==> check_claims_spec(c, project, tolerance, now) == Err::<
            IdTokenClaimsView,
            ErrorView,
        >(ErrorView::Token("Token is expired!"@)),
{
}

/// Not-before boundary: a token issued exactly at the clock reading pushed
/// out by the tolerance is valid already, while one issued a second later is
/// not; in the latter case the checks report the not-yet-valid error whenever
/// every earlier check passes.
pub proof fn lemma_not_before_boundary(
    c: IdTokenClaimsView,
    project: Seq<char>,
    tolerance: u64,
    now: u64,
)
    ensures
        c.iat == now + tolerance ==> !not_yet_valid(c.iat, tolerance, now),
        c.iat == now + tolerance + 1 ==> not_yet_valid(c.iat, tolerance, now),
        (c.aud == project && c.iss == issuer_for(project) && !expired(c.exp, tolerance, now)
            && not_yet_valid(c.iat, tolerance, now)) ==> check_claims_spec(
            c,
            project,
            tolerance,
            now,
        ) == Err::<IdTokenClaimsView, ErrorView>(ErrorView::Token("Token isn't valid yet!"@)),
{
}

} // verus!
