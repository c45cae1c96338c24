use nivaro_backend::csrf::CSRF_TTL_SECS;
use nivaro_backend::error::{AuthError, ValidationIssue};
use nivaro_backend::lockout::LOCK_WINDOW_SECS;
use nivaro_backend::onetime::{TokenKind, RESET_TTL_SECS};
use nivaro_backend::service::{AuthService, Credentials};
use nivaro_backend::sessions::SESSION_TTL_SECS;
use nivaro_backend::token::verify_at;

// bcrypt at cost 4 of "Passw0rd!".
const LOW_COST_HASH: &str = "$2b$04$abcdefghijklmnopqrstuuchGdllX0O2ZthG6oyaPSbmBrCIbnHlu";
const SECRET: &str = "a-server-side-secret";

fn service() -> AuthService {
    AuthService::new(SECRET.to_string()).unwrap()
}

/// A service with the account u1 / demo@x.com / "Passw0rd!".
fn service_with_demo() -> AuthService {
    let mut svc = service();
    svc.users
        .create_with_hash("u1".to_string(), "demo@x.com", "Demo", LOW_COST_HASH.to_string(), 1000)
        .unwrap();
    svc
}

fn bearer(token: &str) -> String {
    format!("Bearer {}", token)
}

/// Logs demo in at `now`; returns the bearer token and an anti-forgery token.
fn signed_in(svc: &mut AuthService, now: u64, tag: &str) -> (String, String) {
    let reply = svc.login_at("demo@x.com", "Passw0rd!", now, format!("sess-{}", tag)).unwrap();
    let header = bearer(&reply.token);
    let creds = Credentials { authorization: Some(&header), cookie: None, csrf: None };
    let (csrf, _) = svc
        .get_csrf_token_at(&creds, now, format!("csrf-id-{}", tag), format!("csrf-{}", tag))
        .unwrap();
    (reply.token, csrf)
}

#[test]
fn service_needs_a_secret() {
    assert!(AuthService::new(String::new()).is_err());
    assert_eq!(AuthService::new(String::new()).err(), Some(AuthError::Internal));
    let svc = service();
    assert!(svc.is_well_formed());
    assert_eq!(svc.users.len(), 0);
    assert_eq!(svc.secret, SECRET);
}

#[test]
fn signup_then_login_before_verifying_the_address() {
    let mut svc = service();
    let reply = svc
        .signup_at(
            "demo@x.com",
            "Passw0rd!",
            "Demo",
            1000,
            "u1".to_string(),
            "v1".to_string(),
            "verify-tok".to_string(),
        )
        .unwrap();
    assert_eq!(reply.user.id, "u1");
    assert_eq!(reply.user.email, "demo@x.com");
    assert_eq!(reply.user.name, "Demo");
    assert!(!reply.user.email_verified);
    assert!(reply.user.is_active);
    assert_eq!(reply.verification_token, "verify-tok");
    assert_eq!(svc.sessions.len(), 0);
    let stored = svc.users.find_by_id("u1").unwrap();
    assert_ne!(stored.password_hash, "Passw0rd!");
    let tok = &svc.one_time.tokens[0];
    assert_eq!(tok.kind, TokenKind::EmailVerification);
    assert_eq!(tok.user_id, "u1");
    assert_eq!(tok.email, Some("demo@x.com".to_string()));
    assert_eq!(tok.expires_at, 1000 + 86_400);
    // Login is not held back by the unverified address.
    let login = svc.login_at("demo@x.com", "Passw0rd!", 1001, "s1".to_string()).unwrap();
    assert!(!login.user.email_verified);
    assert_eq!(login.expires_at, 1001 + SESSION_TTL_SECS);
    assert_eq!(verify_at(&login.token, SECRET, 1001).unwrap().sub, "u1");
    assert_eq!(svc.sessions.len(), 1);
}

#[test]
fn signup_validates_in_order() {
    let mut svc = service_with_demo();
    let mut go = |email: &str, password: &str, name: &str, id: &str, tok: &str| {
        svc.signup_at(email, password, name, 5, id.to_string(), "v".to_string(), tok.to_string())
            .map(|r| r.user.id)
    };
    let missing = Err(AuthError::Validation(ValidationIssue::MissingFields));
    assert_eq!(go("", "Passw0rd!", "N", "u2", "t"), missing);
    assert_eq!(go("a@b.c", "", "N", "u2", "t"), missing);
    assert_eq!(go("a@b.c", "Passw0rd!", "", "u2", "t"), missing);
    assert_eq!(
        go("ab.c", "weak", "N", "u2", "t"),
        Err(AuthError::Validation(ValidationIssue::InvalidEmail))
    );
    assert_eq!(
        go("a@b.c", "weak", "N", "u2", "t"),
        Err(AuthError::Validation(ValidationIssue::WeakPassword))
    );
    assert_eq!(go("DEMO@x.com", "Passw0rd!", "N", "u2", "t"), Err(AuthError::Conflict));
    assert_eq!(go("a@b.c", "Passw0rd!", "N", "u1", "t"), Err(AuthError::Internal));
    assert_eq!(svc.users.len(), 1);
    assert_eq!(svc.one_time.len(), 0);
}

#[test]
fn signup_refuses_a_verification_token_that_is_on_record() {
    let mut svc = service_with_demo();
    svc.one_time
        .issue("i".to_string(), "u1", "taken".to_string(), TokenKind::PasswordReset, None, 1)
        .unwrap();
    let r = svc.signup_at(
        "a@b.c",
        "Passw0rd!",
        "N",
        5,
        "u2".to_string(),
        "v".to_string(),
        "taken".to_string(),
    );
    assert_eq!(r.err(), Some(AuthError::Internal));
    assert_eq!(svc.users.len(), 1);
    assert_eq!(svc.one_time.len(), 1);
}

#[test]
fn login_with_missing_fields_unknown_address_or_wrong_password() {
    let mut svc = service_with_demo();
    assert_eq!(
        svc.login_at("", "x", 10, "s".to_string()).err(),
        Some(AuthError::Validation(ValidationIssue::MissingFields))
    );
    assert_eq!(
        svc.login_at("demo@x.com", "", 10, "s".to_string()).err(),
        Some(AuthError::Validation(ValidationIssue::MissingFields))
    );
    assert_eq!(
        svc.login_at("nobody@x.com", "Passw0rd!", 10, "s".to_string()).err(),
        Some(AuthError::Unauthorized)
    );
    assert_eq!(svc.users.find_by_id("u1").unwrap().failed_login_attempts, 0);
    assert_eq!(
        svc.login_at("demo@x.com", "wrong", 10, "s".to_string()).err(),
        Some(AuthError::Unauthorized)
    );
    assert_eq!(svc.users.find_by_id("u1").unwrap().failed_login_attempts, 1);
    assert_eq!(svc.sessions.len(), 0);
}

#[test]
fn five_failed_logins_lock_the_account_for_the_window() {
    let mut svc = service_with_demo();
    for t in [100u64, 101, 102, 103, 104] {
        assert_eq!(
            svc.login_at("demo@x.com", "wrong", t, "s".to_string()).err(),
            Some(AuthError::Unauthorized)
        );
    }
    let until = 104 + LOCK_WINDOW_SECS;
    assert_eq!(svc.users.find_by_id("u1").unwrap().locked_until, Some(until));
    // The sixth attempt is refused though its password is right, and changes nothing.
    assert_eq!(
        svc.login_at("demo@x.com", "Passw0rd!", 105, "s".to_string()).err(),
        Some(AuthError::AccountLocked)
    );
    assert_eq!(
        svc.login_at("demo@x.com", "wrong", until - 1, "s".to_string()).err(),
        Some(AuthError::AccountLocked)
    );
    let u = svc.users.find_by_id("u1").unwrap();
    assert_eq!(u.failed_login_attempts, 5);
    assert_eq!(u.locked_until, Some(until));
    assert_eq!(u.last_login, None);
    assert_eq!(svc.sessions.len(), 0);
}

#[test]
fn locked_account_does_not_look_at_the_password() {
    // With a stored hash that the hash function cannot read, any check of a
    // password is an internal error. While the lock holds none is seen.
    let mut svc = service();
    svc.users
        .create_with_hash("u1".to_string(), "demo@x.com", "Demo", "unreadable".to_string(), 1)
        .unwrap();
    assert_eq!(
        svc.login_at("demo@x.com", "Passw0rd!", 50, "s".to_string()).err(),
        Some(AuthError::Internal)
    );
    svc.users.users[0].failed_login_attempts = 5;
    svc.users.users[0].locked_until = Some(1000);
    assert_eq!(
        svc.login_at("demo@x.com", "Passw0rd!", 999, "s".to_string()).err(),
        Some(AuthError::AccountLocked)
    );
    assert_eq!(
        svc.login_at("demo@x.com", "Passw0rd!", 1000, "s".to_string()).err(),
        Some(AuthError::Internal)
    );
}

#[test]
fn login_after_the_lock_window_succeeds_and_clears_failures() {
    let mut svc = service_with_demo();
    for t in [100u64, 101, 102, 103, 104] {
        let _ = svc.login_at("demo@x.com", "wrong", t, "s".to_string());
    }
    let until = 104 + LOCK_WINDOW_SECS;
    let reply = svc.login_at("demo@x.com", "Passw0rd!", until, "s1".to_string()).unwrap();
    assert_eq!(reply.user.id, "u1");
    let u = svc.users.find_by_id("u1").unwrap();
    assert_eq!(u.failed_login_attempts, 0);
    assert_eq!(u.locked_until, None);
    assert_eq!(u.last_login, Some(until));
    assert!(svc.sessions.is_live(&reply.token, until));
}

#[test]
fn failure_after_the_lock_window_locks_again() {
    let mut svc = service_with_demo();
    for t in [100u64, 101, 102, 103, 104] {
        let _ = svc.login_at("demo@x.com", "wrong", t, "s".to_string());
    }
    let until = 104 + LOCK_WINDOW_SECS;
    assert_eq!(
        svc.login_at("demo@x.com", "wrong", until + 10, "s".to_string()).err(),
        Some(AuthError::Unauthorized)
    );
    assert_eq!(
        svc.users.find_by_id("u1").unwrap().locked_until,
        Some(until + 10 + LOCK_WINDOW_SECS)
    );
}

#[test]
fn successful_login_opens_a_session_for_the_token() {
    let mut svc = service_with_demo();
    let _ = svc.login_at("demo@x.com", "wrong", 10, "s".to_string());
    let reply = svc.login_at("Demo@X.com", "Passw0rd!", 20, "s1".to_string()).unwrap();
    assert_eq!(reply.user.email, "demo@x.com");
    assert_eq!(reply.expires_at, 20 + SESSION_TTL_SECS);
    let s = &svc.sessions.sessions[0];
    assert_eq!((s.id.as_str(), s.user_id.as_str()), ("s1", "u1"));
    assert_eq!(s.token, reply.token);
    assert_eq!(s.expires_at, reply.expires_at);
    let claims = verify_at(&reply.token, SECRET, 20).unwrap();
    assert_eq!(claims.sub, "u1");
    assert_eq!(claims.email, "demo@x.com");
    assert_eq!(claims.exp, reply.expires_at);
    assert_eq!(svc.users.find_by_id("u1").unwrap().failed_login_attempts, 0);
}

#[test]
fn identity_comes_from_header_or_cookie() {
    let mut svc = service_with_demo();
    let (token, _) = signed_in(&mut svc, 100, "a");
    let header = bearer(&token);
    let cookie = format!("theme=dark; auth_token={}", token);
    let by_header = Credentials { authorization: Some(&header), cookie: None, csrf: None };
    let by_cookie = Credentials { authorization: None, cookie: Some(&cookie), csrf: None };
    let none = Credentials { authorization: None, cookie: None, csrf: None };
    let bad = Credentials { authorization: Some("Bearer junk"), cookie: Some(&cookie), csrf: None };
    assert_eq!(svc.resolve_identity_at(&by_header, 100), Some(("u1".to_string(), token.clone())));
    assert_eq!(svc.resolve_identity_at(&by_cookie, 100), Some(("u1".to_string(), token.clone())));
    assert_eq!(svc.resolve_identity_at(&none, 100), None);
    // The header is there and wins, though the cookie would be accepted.
    assert_eq!(svc.resolve_identity_at(&bad, 100), None);
    assert_eq!(svc.resolve_identity_at(&by_header, 100 + SESSION_TTL_SECS), None);
}

#[test]
fn csrf_check_fails_without_header() {
    let mut svc = service_with_demo();
    let (token, _) = signed_in(&mut svc, 100, "a");
    let header = bearer(&token);
    let creds = Credentials { authorization: Some(&header), cookie: None, csrf: None };
    assert_eq!(svc.authorize_at(&creds, 100), Err(AuthError::Forbidden));
    assert!(!svc.verify_csrf_token_at(&creds, 100));
    assert_eq!(svc.revoke_all_sessions_at(&creds, 100), Err(AuthError::Forbidden));
    assert_eq!(AuthError::Forbidden.status_code(), 403);
}

#[test]
fn csrf_check_fails_with_the_token_of_another_user() {
    let mut svc = service_with_demo();
    svc.users
        .create_with_hash("u2".to_string(), "two@x.com", "Two", LOW_COST_HASH.to_string(), 1)
        .unwrap();
    let (token, _) = signed_in(&mut svc, 100, "a");
    let other = svc.login_at("two@x.com", "Passw0rd!", 100, "s2".to_string()).unwrap();
    let other_header = bearer(&other.token);
    let other_creds = Credentials { authorization: Some(&other_header), cookie: None, csrf: None };
    let (other_csrf, _) = svc
        .get_csrf_token_at(&other_creds, 100, "c2".to_string(), "csrf-two".to_string())
        .unwrap();
    let header = bearer(&token);
    let creds =
        Credentials { authorization: Some(&header), cookie: None, csrf: Some(&other_csrf) };
    assert_eq!(svc.authorize_at(&creds, 100), Err(AuthError::Forbidden));
    assert!(!svc.verify_csrf_token_at(&creds, 100));
}

#[test]
fn csrf_check_fails_with_an_expired_token() {
    let mut svc = service_with_demo();
    let (token, csrf) = signed_in(&mut svc, 100, "a");
    let header = bearer(&token);
    let creds = Credentials { authorization: Some(&header), cookie: None, csrf: Some(&csrf) };
    assert!(svc.verify_csrf_token_at(&creds, 100 + CSRF_TTL_SECS - 1));
    assert_eq!(svc.authorize_at(&creds, 100 + CSRF_TTL_SECS), Err(AuthError::Forbidden));
    assert!(!svc.verify_csrf_token_at(&creds, 100 + CSRF_TTL_SECS));
}

#[test]
fn csrf_check_passes_with_the_users_own_current_token() {
    let mut svc = service_with_demo();
    let (token, csrf) = signed_in(&mut svc, 100, "a");
    let header = bearer(&token);
    let creds = Credentials { authorization: Some(&header), cookie: None, csrf: Some(&csrf) };
    assert_eq!(svc.authorize_at(&creds, 100), Ok(("u1".to_string(), token.clone())));
    assert!(svc.verify_csrf_token_at(&creds, 100));
}

#[test]
fn missing_bearer_token_is_unauthorized_not_forbidden() {
    let mut svc = service_with_demo();
    let (_, csrf) = signed_in(&mut svc, 100, "a");
    let creds = Credentials { authorization: None, cookie: None, csrf: Some(&csrf) };
    assert_eq!(svc.authorize_at(&creds, 100), Err(AuthError::Unauthorized));
    assert_eq!(svc.delete_account_at(&creds, 100), Err(AuthError::Unauthorized));
    assert_eq!(AuthError::Unauthorized.status_code(), 401);
    assert_eq!(svc.users.len(), 1);
}

#[test]
fn forgot_password_replies_the_same_for_known_and_unknown_addresses() {
    let mut svc = service_with_demo();
    let known = svc.forgot_password_at("demo@x.com", 100, "r1".to_string(), "reset-1".to_string());
    let unknown =
        svc.forgot_password_at("nobody@x.com", 100, "r2".to_string(), "reset-2".to_string());
    assert_eq!(known.status, unknown.status);
    assert_eq!(known.message, unknown.message);
    assert_eq!(known.status, 200);
    assert_eq!(
        known.message,
        "If an account with that email exists, a password reset link has been sent"
    );
    // Only the mail that is due tells them apart.
    let mail = known.mail.unwrap();
    assert_eq!(mail.address, "demo@x.com");
    assert_eq!(mail.token, "reset-1");
    assert!(unknown.mail.is_none());
    assert_eq!(svc.one_time.len(), 1);
    assert_eq!(svc.one_time.tokens[0].kind, TokenKind::PasswordReset);
    assert_eq!(svc.one_time.tokens[0].expires_at, 100 + RESET_TTL_SECS);
}

#[test]
fn forgot_password_with_a_token_text_on_record_issues_nothing() {
    let mut svc = service_with_demo();
    svc.forgot_password_at("demo@x.com", 100, "r1".to_string(), "reset-1".to_string());
    let again = svc.forgot_password_at("demo@x.com", 101, "r2".to_string(), "reset-1".to_string());
    assert_eq!(again.status, 200);
    assert!(again.mail.is_none());
    assert_eq!(svc.one_time.len(), 1);
}

#[test]
fn wall_clock_forgot_password_issues_a_fresh_token() {
    let mut svc = service_with_demo();
    let a = svc.forgot_password("demo@x.com").mail.unwrap();
    let b = svc.forgot_password("demo@x.com").mail.unwrap();
    assert_eq!(a.token.len(), 36);
    assert_ne!(a.token, b.token);
    assert_eq!(svc.one_time.len(), 2);
    assert!(svc.forgot_password("nobody@x.com").mail.is_none());
}

#[test]
fn reset_password_consumes_the_token_and_revokes_all_sessions() {
    let mut svc = service_with_demo();
    let (token, _) = signed_in(&mut svc, 100, "a");
    svc.forgot_password_at("demo@x.com", 200, "r1".to_string(), "reset-1".to_string());
    assert_eq!(svc.reset_password_at("reset-1", "N3w!Passw", 300), Ok(()));
    assert!(!svc.sessions.is_live(&token, 300));
    assert_eq!(
        svc.login_at("demo@x.com", "Passw0rd!", 301, "s".to_string()).err(),
        Some(AuthError::Unauthorized)
    );
    assert!(svc.login_at("demo@x.com", "N3w!Passw", 302, "s".to_string()).is_ok());
    // Single use.
    assert_eq!(
        svc.reset_password_at("reset-1", "An0ther!Pw", 303),
        Err(AuthError::InvalidOrExpiredToken)
    );
    assert_eq!(AuthError::InvalidOrExpiredToken.status_code(), 400);
}

#[test]
fn reset_password_refusals_change_nothing() {
    let mut svc = service_with_demo();
    svc.forgot_password_at("demo@x.com", 200, "r1".to_string(), "reset-1".to_string());
    assert_eq!(
        svc.reset_password_at("reset-1", "weak", 300),
        Err(AuthError::Validation(ValidationIssue::WeakPassword))
    );
    assert_eq!(
        svc.reset_password_at("unknown", "N3w!Passw", 300),
        Err(AuthError::InvalidOrExpiredToken)
    );
    assert_eq!(
        svc.reset_password_at("reset-1", "N3w!Passw", 200 + RESET_TTL_SECS + 1),
        Err(AuthError::InvalidOrExpiredToken)
    );
    assert_eq!(svc.one_time.tokens[0].used_at, None);
    assert_eq!(svc.users.find_by_id("u1").unwrap().password_hash, LOW_COST_HASH);
}

#[test]
fn verify_email_marks_the_address_confirmed_once() {
    let mut svc = service_with_demo();
    svc.one_time
        .issue(
            "v1".to_string(),
            "u1",
            "verify-1".to_string(),
            TokenKind::EmailVerification,
            Some("demo@x.com".to_string()),
            100,
        )
        .unwrap();
    assert_eq!(svc.verify_email_at("nope", 150), Err(AuthError::InvalidOrExpiredToken));
    assert!(!svc.users.find_by_id("u1").unwrap().email_verified);
    assert_eq!(svc.verify_email_at("verify-1", 150), Ok(()));
    let u = svc.users.find_by_id("u1").unwrap();
    assert!(u.email_verified);
    assert_eq!(u.updated_at, 150);
    assert_eq!(svc.verify_email_at("verify-1", 151), Err(AuthError::InvalidOrExpiredToken));
}

#[test]
fn reset_token_does_not_verify_an_address() {
    let mut svc = service_with_demo();
    svc.forgot_password_at("demo@x.com", 100, "r1".to_string(), "reset-1".to_string());
    assert_eq!(svc.verify_email_at("reset-1", 150), Err(AuthError::InvalidOrExpiredToken));
    assert_eq!(svc.one_time.tokens[0].used_at, None);
}

#[test]
fn login_given_follows_the_verdict_it_is_given() {
    let mut svc = service_with_demo();
    // The hasher failed: nothing changes.
    assert_eq!(
        svc.login_given("demo@x.com", 10, "s".to_string(), Err(AuthError::Internal), None).err(),
        Some(AuthError::Internal)
    );
    assert_eq!(svc.users.find_by_id("u1").unwrap().failed_login_attempts, 0);
    // The password was not accepted.
    for t in [11u64, 12, 13, 14] {
        assert_eq!(
            svc.login_given("demo@x.com", t, "s".to_string(), Ok(false), None).err(),
            Some(AuthError::Unauthorized)
        );
    }
    assert_eq!(svc.users.find_by_id("u1").unwrap().failed_login_attempts, 4);
    // Accepted, but the signer made no token: nothing changes.
    assert_eq!(
        svc.login_given("demo@x.com", 15, "s".to_string(), Ok(true), None).err(),
        Some(AuthError::Internal)
    );
    assert_eq!(svc.users.find_by_id("u1").unwrap().failed_login_attempts, 4);
    // The fifth failure locks; from then on the verdict plays no part.
    let _ = svc.login_given("demo@x.com", 16, "s".to_string(), Ok(false), None);
    let until = 16 + LOCK_WINDOW_SECS;
    for verdict in [Ok(true), Ok(false), Err(AuthError::Internal)] {
        assert_eq!(
            svc.login_given(
                "demo@x.com",
                until - 1,
                "s".to_string(),
                verdict,
                Some("tok".to_string())
            )
            .err(),
            Some(AuthError::AccountLocked)
        );
    }
    assert_eq!(svc.users.find_by_id("u1").unwrap().locked_until, Some(until));
    assert_eq!(svc.sessions.len(), 0);
    // After the window an accepted password opens a session for the token given.
    let reply = svc
        .login_given("demo@x.com", until, "s9".to_string(), Ok(true), Some("tok".to_string()))
        .unwrap();
    assert_eq!(reply.token, "tok");
    assert_eq!(reply.expires_at, until + SESSION_TTL_SECS);
    assert_eq!(svc.sessions.sessions[0].id, "s9");
    assert_eq!(svc.sessions.sessions[0].token, "tok");
    assert_eq!(svc.users.find_by_id("u1").unwrap().failed_login_attempts, 0);
    assert_eq!(
        svc.login_given("", until, "s".to_string(), Ok(true), Some("t".to_string())).err(),
        Some(AuthError::Validation(ValidationIssue::MissingFields))
    );
    assert_eq!(
        svc.login_given("nobody@x.com", until, "s".to_string(), Ok(true), Some("t".to_string()))
            .err(),
        Some(AuthError::Unauthorized)
    );
}

#[test]
fn authorize_given_tells_unauthorized_from_forbidden() {
    let mut svc = service_with_demo();
    svc.csrf.issue_or_reuse("u1", 100, "c".to_string(), "csrf-a".to_string()).unwrap();
    let who = || Some(("u1".to_string(), "bearer".to_string()));
    assert_eq!(svc.authorize_given(None, Some("csrf-a"), 100), Err(AuthError::Unauthorized));
    assert_eq!(svc.authorize_given(who(), None, 100), Err(AuthError::Forbidden));
    assert_eq!(svc.authorize_given(who(), Some("other"), 100), Err(AuthError::Forbidden));
    assert_eq!(
        svc.authorize_given(who(), Some("csrf-a"), 100 + CSRF_TTL_SECS),
        Err(AuthError::Forbidden)
    );
    assert_eq!(
        svc.authorize_given(Some(("u2".to_string(), "b".to_string())), Some("csrf-a"), 100),
        Err(AuthError::Forbidden)
    );
    assert_eq!(
        svc.authorize_given(who(), Some("csrf-a"), 100),
        Ok(("u1".to_string(), "bearer".to_string()))
    );
}

#[test]
fn register_account_stores_the_hash_it_is_given() {
    let mut svc = service();
    let reply = svc
        .register_account(
            "demo@x.com",
            "Demo",
            "a-hash".to_string(),
            1000,
            "u1".to_string(),
            "v1".to_string(),
            "vtok".to_string(),
        )
        .unwrap();
    assert_eq!(reply.user.id, "u1");
    assert_eq!(reply.verification_token, "vtok");
    assert_eq!(svc.users.find_by_id("u1").unwrap().password_hash, "a-hash");
    assert_eq!(svc.one_time.tokens[0].token, "vtok");
    let again = svc.register_account(
        "Demo@x.com",
        "Demo",
        "h".to_string(),
        1001,
        "u2".to_string(),
        "v2".to_string(),
        "vtok2".to_string(),
    );
    assert_eq!(again.err(), Some(AuthError::Conflict));
    let same_id = svc.register_account(
        "other@x.com",
        "O",
        "h".to_string(),
        1001,
        "u1".to_string(),
        "v2".to_string(),
        "vtok2".to_string(),
    );
    assert_eq!(same_id.err(), Some(AuthError::Internal));
    let same_token = svc.register_account(
        "other@x.com",
        "O",
        "h".to_string(),
        1001,
        "u2".to_string(),
        "v2".to_string(),
        "vtok".to_string(),
    );
    assert_eq!(same_token.err(), Some(AuthError::Internal));
    assert_eq!(svc.users.len(), 1);
    assert_eq!(svc.one_time.len(), 1);
}

#[test]
fn reset_password_given_changes_nothing_without_a_hash() {
    let mut svc = service_with_demo();
    svc.forgot_password_at("demo@x.com", 200, "r1".to_string(), "reset-1".to_string());
    assert_eq!(svc.reset_password_given("reset-1", 300, None), Err(AuthError::Internal));
    assert_eq!(svc.one_time.tokens[0].used_at, None);
    assert_eq!(
        svc.reset_password_given("nope", 300, Some("h".to_string())),
        Err(AuthError::InvalidOrExpiredToken)
    );
    assert_eq!(svc.one_time.owner_of_usable("reset-1", TokenKind::PasswordReset, 300), Some("u1".to_string()));
    assert_eq!(svc.one_time.owner_of_usable("reset-1", TokenKind::EmailVerification, 300), None);
    assert_eq!(svc.reset_password_given("reset-1", 300, Some("new-hash".to_string())), Ok(()));
    assert_eq!(svc.users.find_by_id("u1").unwrap().password_hash, "new-hash");
    assert_eq!(svc.users.find_by_id("u1").unwrap().updated_at, 300);
    assert_eq!(svc.one_time.tokens[0].used_at, Some(300));
    assert_eq!(svc.one_time.owner_of_usable("reset-1", TokenKind::PasswordReset, 301), None);
}
