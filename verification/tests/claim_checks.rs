use fire_auth::claims::{check_claims, IdTokenClaims};
use fire_auth::Error;

fn sample_claims(exp: u64, iat: u64, aud: &str, project: &str) -> IdTokenClaims {
    IdTokenClaims {
        exp,
        iat,
        iss: format!("https://securetoken.google.com/{}", project),
        sub: "user-1".to_string(),
        auth_time: iat,
        aud: aud.to_string(),
    }
}

fn token_message(r: Result<(), Error>) -> String {
    match r {
        Err(Error::Token(m)) => m,
        Err(e) => panic!("expected a token error, got another kind: {}", e.message()),
        Ok(()) => panic!("expected a token error, got a pass"),
    }
}

#[test]
fn claims_pass_when_everything_matches() {
    let c = sample_claims(1_000_000, 900_000, "proj-a", "proj-a");
    assert!(check_claims(&c, "proj-a", 0, 950_000).is_ok());
}

#[test]
fn audience_mismatch_names_the_offending_audience() {
    let c = sample_claims(1_000_000, 900_000, "proj-a", "proj-a");
    let r = check_claims(&c, "proj-b", 0, 950_000);
    assert_eq!(token_message(r), "Invalid project ID: proj-a");
}

#[test]
fn audience_match_passes_the_audience_check() {
    // Same record, checked against its own audience: only the issuer differs
    // from proj-b's, so the failure moves past the audience check.
    let c = sample_claims(1_000_000, 900_000, "proj-b", "proj-a");
    let r = check_claims(&c, "proj-b", 0, 950_000);
    assert_eq!(
        token_message(r),
        "Invalid issuer: https://securetoken.google.com/proj-a"
    );
}

#[test]
fn issuer_must_carry_the_project_id() {
    let mut c = sample_claims(1_000_000, 900_000, "proj-a", "proj-a");
    c.iss = "https://example.com/proj-a".to_string();
    let r = check_claims(&c, "proj-a", 0, 950_000);
    assert_eq!(token_message(r), "Invalid issuer: https://example.com/proj-a");
}

#[test]
fn expiry_at_now_fails_with_zero_tolerance() {
    let now = 950_000;
    let c = sample_claims(now, 900_000, "proj-a", "proj-a");
    let r = check_claims(&c, "proj-a", 0, now);
    assert_eq!(token_message(r), "Token is expired!");
}

#[test]
fn expiry_one_second_after_now_passes_with_zero_tolerance() {
    let now = 950_000;
    let c = sample_claims(now + 1, 900_000, "proj-a", "proj-a");
    assert!(check_claims(&c, "proj-a", 0, now).is_ok());
}

#[test]
fn expiry_more_than_tolerance_in_the_past_fails() {
    let now = 950_000;
    let tolerance = 30;
    let c = sample_claims(now - tolerance - 1, 900_000, "proj-a", "proj-a");
    let r = check_claims(&c, "proj-a", tolerance, now);
    assert_eq!(token_message(r), "Token is expired!");
}

#[test]
fn expiry_within_tolerance_after_now_passes() {
    let now = 950_000;
    let tolerance = 30;
    let c = sample_claims(now + 1, 900_000, "proj-a", "proj-a");
    assert!(check_claims(&c, "proj-a", tolerance, now).is_ok());
}

#[test]
fn issued_at_now_plus_tolerance_passes() {
    let now = 950_000;
    let tolerance = 30;
    let c = sample_claims(now + 3_600, now + tolerance, "proj-a", "proj-a");
    assert!(check_claims(&c, "proj-a", tolerance, now).is_ok());
}

#[test]
fn issued_one_second_past_the_tolerance_fails() {
    let now = 950_000;
    let tolerance = 30;
    let c = sample_claims(now + 3_600, now + tolerance + 1, "proj-a", "proj-a");
    let r = check_claims(&c, "proj-a", tolerance, now);
    assert_eq!(token_message(r), "Token isn't valid yet!");
}

#[test]
fn huge_tolerance_does_not_overflow_the_checks() {
    let c = sample_claims(0, 0, "proj-a", "proj-a");
    let r = check_claims(&c, "proj-a", u64::MAX, u64::MAX);
    assert_eq!(token_message(r), "Token is expired!");
}

#[test]
fn error_message_accessor_returns_the_carried_text() {
    let e = Error::API("Failed to fetch keys!".to_string());
    assert_eq!(e.message().as_str(), "Failed to fetch keys!");
}
