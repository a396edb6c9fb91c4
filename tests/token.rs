use cat_match::token::{
    bearer_token, claims_at, issue_claims, verify_claims, AuthError, Claims, TOKEN_LIFETIME_SECS,
};

#[test]
fn lifetime_is_eight_hours() {
    assert_eq!(TOKEN_LIFETIME_SECS, 8 * 60 * 60);
    let c = claims_at("x@y.z".to_string(), 3, 1_000);
    assert_eq!(c.email, "x@y.z");
    assert_eq!(c.id, 3);
    assert_eq!(c.exp, 1_000 + 28_800);
}

#[test]
fn issued_now_keeps_identity() {
    let c = issue_claims("x@y.z".to_string(), 42).unwrap();
    assert_eq!(c.email, "x@y.z");
    assert_eq!(c.id, 42);
    assert!(c.exp > 1_600_000_000 + TOKEN_LIFETIME_SECS);
}

#[test]
fn token_verifies_within_window() {
    let c = claims_at("x@y.z".to_string(), 3, 1_000);
    let u = verify_claims(Some(c), 1_000 + 28_799).ok().unwrap();
    assert_eq!(u.email, "x@y.z");
    assert_eq!(u.id, 3);
}

#[test]
fn token_fails_after_expiry() {
    let c = claims_at("x@y.z".to_string(), 3, 1_000);
    assert_eq!(verify_claims(Some(c), 1_000 + 28_800).err(), Some(AuthError::Expired));
    let c = Claims { email: "x@y.z".to_string(), id: 3, exp: 10 };
    assert_eq!(verify_claims(Some(c), 1_000_000).err(), Some(AuthError::Expired));
}

#[test]
fn undecodable_token_fails() {
    assert_eq!(verify_claims(None, 0).err(), Some(AuthError::Malformed));
}

#[test]
fn bearer_header_pieces() {
    assert_eq!(bearer_token("Bearer abc.def"), Some("abc.def".to_string()));
    assert_eq!(bearer_token("Bearer abc def"), Some("abc".to_string()));
    assert_eq!(bearer_token("Bearer  abc"), Some("".to_string()));
    assert_eq!(bearer_token("Bearer "), Some("".to_string()));
    assert_eq!(bearer_token("Bearer"), None);
    assert_eq!(bearer_token(""), None);
}
