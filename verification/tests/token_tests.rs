use nivaro_backend::error::AuthError;
use nivaro_backend::sessions::SESSION_TTL_SECS;
use nivaro_backend::token::{
    accept_issued, accept_unexpired, bearer_of, claims_from_raw, cookie_token, decode, extract_token, issue,
    issue_at, verify, verify_at, Claims, RawClaims,
};

const SECRET: &str = "a-server-side-secret";

#[test]
fn issued_token_is_accepted_before_its_expiry_and_rejected_from_it_on() {
    let token = issue_at("u1", "demo@x.com", SECRET, 1000).unwrap();
    let exp = 1000 + SESSION_TTL_SECS;
    let c = verify_at(&token, SECRET, 1000).unwrap();
    assert_eq!(c.sub, "u1");
    assert_eq!(c.email, "demo@x.com");
    assert_eq!(c.iat, 1000);
    assert_eq!(c.exp, exp);
    assert_eq!(verify_at(&token, SECRET, exp - 1).unwrap().sub, "u1");
    assert!(verify_at(&token, SECRET, exp).is_none());
    assert!(verify_at(&token, SECRET, exp + 1).is_none());
}

#[test]
fn session_lifetime_is_twenty_four_hours() {
    assert_eq!(SESSION_TTL_SECS, 24 * 60 * 60);
}

#[test]
fn token_has_three_parts_and_is_not_a_claim() {
    let token = issue_at("u1", "demo@x.com", SECRET, 1000).unwrap();
    assert_eq!(token.split('.').count(), 3);
    assert_ne!(token, "u1");
    assert_ne!(token, "demo@x.com");
    assert_ne!(token, SECRET);
}

#[test]
fn issuing_is_a_function_of_its_arguments() {
    let a = issue_at("u1", "demo@x.com", SECRET, 1000).unwrap();
    let b = issue_at("u1", "demo@x.com", SECRET, 1000).unwrap();
    let c = issue_at("u1", "demo@x.com", SECRET, 1001).unwrap();
    let d = issue_at("u2", "demo@x.com", SECRET, 1000).unwrap();
    assert_eq!(a, b);
    assert_ne!(a, c);
    assert_ne!(a, d);
}

#[test]
fn token_under_another_secret_is_rejected() {
    let token = issue_at("u1", "demo@x.com", SECRET, 1000).unwrap();
    assert!(verify_at(&token, "another-secret", 1000).is_none());
    assert!(decode(&token, "another-secret").is_none());
}

#[test]
fn tampered_token_is_rejected() {
    let token = issue_at("u1", "demo@x.com", SECRET, 1000).unwrap();
    let other = issue_at("u2", "demo@x.com", SECRET, 1000).unwrap();
    let parts: Vec<&str> = token.split('.').collect();
    let other_parts: Vec<&str> = other.split('.').collect();
    let forged = format!("{}.{}.{}", parts[0], other_parts[1], parts[2]);
    assert!(verify_at(&forged, SECRET, 1000).is_none());
    let mut cut = token.clone();
    cut.pop();
    assert!(verify_at(&cut, SECRET, 1000).is_none());
}

#[test]
fn malformed_token_is_rejected() {
    assert!(verify_at("", SECRET, 1000).is_none());
    assert!(verify_at("a.b.c", SECRET, 1000).is_none());
    assert!(verify_at("not-a-token", SECRET, 1000).is_none());
    assert!(decode("a.b", SECRET).is_none());
}

#[test]
fn decode_reads_an_expired_token_that_verify_rejects() {
    let token = issue_at("u1", "demo@x.com", SECRET, 0).unwrap();
    assert_eq!(decode(&token, SECRET).unwrap().exp, SESSION_TTL_SECS);
    assert!(verify_at(&token, SECRET, SESSION_TTL_SECS + 5).is_none());
}

#[test]
fn wall_clock_issue_and_verify_round_trip() {
    let (token, expires_at) = issue("u1", "demo@x.com", SECRET).unwrap();
    let c = verify(&token, SECRET).unwrap();
    assert_eq!(c.sub, "u1");
    assert_eq!(c.exp, expires_at);
    assert_eq!(c.exp - c.iat, SESSION_TTL_SECS);
    // The clock is past 2020 and before the year 10000.
    assert!(c.iat > 1_577_836_800);
    assert!(verify("a.b.c", SECRET).is_none());
}

#[test]
fn wall_clock_verify_rejects_a_token_that_expired_long_ago() {
    let token = issue_at("u1", "demo@x.com", SECRET, 1000).unwrap();
    assert!(verify(&token, SECRET).is_none());
}

#[test]
fn claims_need_all_four_fields() {
    let full = RawClaims {
        sub: Some("u1".to_string()),
        email: Some("e".to_string()),
        exp: Some(2),
        iat: Some(1),
    };
    let c: Claims = claims_from_raw(full).unwrap();
    assert_eq!((c.sub.as_str(), c.email.as_str(), c.exp, c.iat), ("u1", "e", 2, 1));
    assert!(claims_from_raw(RawClaims {
        sub: None,
        email: Some("e".to_string()),
        exp: Some(2),
        iat: Some(1)
    })
    .is_none());
    assert!(claims_from_raw(RawClaims {
        sub: Some("u1".to_string()),
        email: None,
        exp: Some(2),
        iat: Some(1)
    })
    .is_none());
    assert!(claims_from_raw(RawClaims {
        sub: Some("u1".to_string()),
        email: Some("e".to_string()),
        exp: None,
        iat: Some(1)
    })
    .is_none());
    assert!(claims_from_raw(RawClaims {
        sub: Some("u1".to_string()),
        email: Some("e".to_string()),
        exp: Some(2),
        iat: None
    })
    .is_none());
}

#[test]
fn unexpired_claims_pass_and_expired_ones_do_not() {
    let make = || Claims { sub: "u".to_string(), email: "e".to_string(), exp: 10, iat: 1 };
    assert!(accept_unexpired(Some(make()), 9).is_some());
    assert!(accept_unexpired(Some(make()), 10).is_none());
    assert!(accept_unexpired(None, 0).is_none());
}

#[test]
fn empty_secret_and_empty_claims_still_round_trip() {
    match issue_at("", "", "", 0) {
        Ok(token) => {
            let c = verify_at(&token, "", 0).unwrap();
            assert_eq!(c.sub, "");
            assert_eq!(c.email, "");
        }
        Err(e) => assert_eq!(e, AuthError::Internal),
    }
}

#[test]
fn bearer_header_gives_the_text_after_the_prefix() {
    assert_eq!(bearer_of("Bearer abc.def"), Some("abc.def"));
    assert_eq!(bearer_of("Bearer "), Some(""));
    assert_eq!(bearer_of("bearer abc"), None);
    assert_eq!(bearer_of("Basic abc"), None);
    assert_eq!(bearer_of(""), None);
}

#[test]
fn cookie_header_gives_the_first_auth_token_cookie() {
    assert_eq!(cookie_token("auth_token=abc"), Some("abc"));
    assert_eq!(cookie_token("a=b; auth_token=abc; c=d"), Some("abc"));
    assert_eq!(cookie_token("a=b;auth_token=abc"), Some("abc"));
    assert_eq!(cookie_token("  auth_token=abc  ; x=y"), Some("abc"));
    assert_eq!(cookie_token("auth_token=one; auth_token=two"), Some("one"));
    assert_eq!(cookie_token("auth_token="), Some(""));
    assert_eq!(cookie_token("a=b; c=d"), None);
    assert_eq!(cookie_token("xauth_token=abc"), None);
    assert_eq!(cookie_token(""), None);
    assert_eq!(cookie_token(";;"), None);
    assert_eq!(cookie_token("a=b;"), None);
}

#[test]
fn header_takes_priority_over_cookie() {
    assert_eq!(
        extract_token(Some("Bearer from-header"), Some("auth_token=from-cookie")),
        Some("from-header".to_string())
    );
    assert_eq!(
        extract_token(Some("Basic xyz"), Some("auth_token=from-cookie")),
        Some("from-cookie".to_string())
    );
    assert_eq!(
        extract_token(None, Some("auth_token=from-cookie")),
        Some("from-cookie".to_string())
    );
    assert_eq!(extract_token(Some("Bearer t"), None), Some("t".to_string()));
    assert_eq!(extract_token(None, None), None);
    assert_eq!(extract_token(Some("Basic xyz"), Some("a=b")), None);
}

#[test]
fn signed_token_is_handed_out_only_if_it_reads_back() {
    let claims = |sub: &str, email: &str, exp: u64, iat: u64| {
        Some(Claims { sub: sub.to_string(), email: email.to_string(), exp, iat })
    };
    let tok = || Some("tok".to_string());
    assert_eq!(accept_issued(tok(), claims("u1", "e", 9, 1), "u1", "e", 9, 1), Ok("tok".to_string()));
    assert_eq!(accept_issued(None, claims("u1", "e", 9, 1), "u1", "e", 9, 1), Err(AuthError::Internal));
    assert_eq!(accept_issued(tok(), None, "u1", "e", 9, 1), Err(AuthError::Internal));
    assert_eq!(accept_issued(tok(), claims("u2", "e", 9, 1), "u1", "e", 9, 1), Err(AuthError::Internal));
    assert_eq!(accept_issued(tok(), claims("u1", "f", 9, 1), "u1", "e", 9, 1), Err(AuthError::Internal));
    assert_eq!(accept_issued(tok(), claims("u1", "e", 8, 1), "u1", "e", 9, 1), Err(AuthError::Internal));
    assert_eq!(accept_issued(tok(), claims("u1", "e", 9, 2), "u1", "e", 9, 1), Err(AuthError::Internal));
}
