use nivaro_backend::csrf::{CsrfTokenManager, CSRF_TTL_SECS};
use nivaro_backend::error::AuthError;
use nivaro_backend::onetime::{
    OneTimeTokenIssuer, TokenKind, RESET_TTL_SECS, VERIFICATION_TTL_SECS,
};
use nivaro_backend::sessions::{Selection, SessionRegistry, SESSION_TTL_SECS};

fn registry_with_three() -> SessionRegistry {
    let mut reg = SessionRegistry::new();
    reg.create("s1".to_string(), "u1", "tok-a", 100);
    reg.create("s2".to_string(), "u1", "tok-b", 200);
    reg.create("s3".to_string(), "u2", "tok-c", 300);
    reg
}

#[test]
fn created_session_is_active_and_expires_a_day_later() {
    let mut reg = SessionRegistry::new();
    let s = reg.create("s1".to_string(), "u1", "tok-a", 100);
    assert_eq!(s.id, "s1");
    assert_eq!(s.user_id, "u1");
    assert_eq!(s.token, "tok-a");
    assert_eq!(s.created_at, 100);
    assert_eq!(s.last_accessed, 100);
    assert_eq!(s.expires_at, 100 + SESSION_TTL_SECS);
    assert!(s.is_active);
    assert_eq!(s.user_agent, None);
    assert_eq!(s.ip_address, None);
    assert_eq!(reg.len(), 1);
    assert!(reg.is_live("tok-a", 100));
}

#[test]
fn session_with_a_known_token_is_replaced_not_doubled() {
    let mut reg = registry_with_three();
    reg.revoke("tok-a");
    assert!(!reg.is_live("tok-a", 150));
    reg.create("s9".to_string(), "u1", "tok-a", 500);
    assert_eq!(reg.len(), 3);
    assert_eq!(reg.position_by_token("tok-a"), Some(0));
    assert_eq!(reg.sessions[0].id, "s9");
    assert!(reg.is_live("tok-a", 500));
    assert!(reg.is_well_formed());
}

#[test]
fn list_active_checks_owner_activity_and_expiry() {
    let mut reg = registry_with_three();
    let live: Vec<String> = reg.list_active("u1", 250).into_iter().map(|s| s.token).collect();
    assert_eq!(live, vec!["tok-a".to_string(), "tok-b".to_string()]);
    // tok-a expires at 100 + one day: dead from that instant on, though still active.
    let at_expiry = reg.list_active("u1", 100 + SESSION_TTL_SECS);
    assert_eq!(at_expiry.len(), 1);
    assert_eq!(at_expiry[0].token, "tok-b");
    assert!(reg.sessions[0].is_active);
    reg.revoke("tok-b");
    assert_eq!(reg.list_active("u1", 250).len(), 1);
    assert_eq!(reg.list_active("u3", 250).len(), 0);
}

#[test]
fn revoke_marks_one_session_inactive() {
    let mut reg = registry_with_three();
    reg.revoke("tok-b");
    assert!(reg.sessions[0].is_active);
    assert!(!reg.sessions[1].is_active);
    assert!(reg.sessions[2].is_active);
    reg.revoke("unknown");
    assert_eq!(reg.len(), 3);
}

#[test]
fn revoke_all_marks_every_session_of_the_user_inactive() {
    let mut reg = registry_with_three();
    reg.revoke_all("u1");
    assert!(!reg.sessions[0].is_active);
    assert!(!reg.sessions[1].is_active);
    assert!(reg.sessions[2].is_active);
    assert_eq!(reg.list_active("u1", 250).len(), 0);
    assert_eq!(reg.list_active("u2", 350).len(), 1);
}

#[test]
fn revoke_all_except_leaves_exactly_the_kept_session_active() {
    let mut reg = registry_with_three();
    reg.create("s4".to_string(), "u1", "tok-d", 400);
    reg.revoke_all_except("u1", "tok-b");
    let live = reg.list_active("u1", 450);
    assert_eq!(live.len(), 1);
    assert_eq!(live[0].token, "tok-b");
    let states: Vec<(String, bool)> =
        reg.sessions.iter().map(|s| (s.token.clone(), s.is_active)).collect();
    assert_eq!(
        states,
        vec![
            ("tok-a".to_string(), false),
            ("tok-b".to_string(), true),
            ("tok-c".to_string(), true),
            ("tok-d".to_string(), false),
        ]
    );
}

#[test]
fn revoke_all_except_with_a_token_of_another_user_keeps_none() {
    let mut reg = registry_with_three();
    reg.revoke_all_except("u1", "tok-c");
    assert_eq!(reg.list_active("u1", 350).len(), 0);
    assert!(reg.sessions[2].is_active);
}

#[test]
fn revoke_selected_follows_the_selection() {
    let mut reg = registry_with_three();
    reg.revoke_selected(&Selection::UserExcept("u1", "tok-a"));
    assert!(reg.sessions[0].is_active);
    assert!(!reg.sessions[1].is_active);
    reg.revoke_selected(&Selection::Token("tok-c"));
    assert!(!reg.sessions[2].is_active);
    reg.revoke_selected(&Selection::User("u1"));
    assert!(!reg.sessions[0].is_active);
}

#[test]
fn remove_user_drops_the_sessions_of_one_user() {
    let mut reg = registry_with_three();
    reg.remove_user("u1");
    assert_eq!(reg.len(), 1);
    assert_eq!(reg.sessions[0].token, "tok-c");
}

#[test]
fn registry_well_formedness_check_finds_a_doubled_token() {
    let mut reg = registry_with_three();
    assert!(reg.is_well_formed());
    let copy = reg.sessions[0].clone();
    reg.sessions.push(copy);
    assert!(!reg.is_well_formed());
}

#[test]
fn csrf_token_is_issued_for_one_hour_and_then_reused() {
    let mut m = CsrfTokenManager::new();
    let (t1, e1) = m.issue_or_reuse("u1", 1000, "c1".to_string(), "csrf-a".to_string()).unwrap();
    assert_eq!(t1, "csrf-a");
    assert_eq!(e1, 1000 + CSRF_TTL_SECS);
    assert_eq!(CSRF_TTL_SECS, 3600);
    let (t2, e2) = m.issue_or_reuse("u1", 2000, "c2".to_string(), "csrf-b".to_string()).unwrap();
    assert_eq!(t2, "csrf-a");
    assert_eq!(e2, 1000 + CSRF_TTL_SECS);
    assert_eq!(m.len(), 1);
}

#[test]
fn expired_csrf_token_is_purged_at_the_next_issue() {
    let mut m = CsrfTokenManager::new();
    m.issue_or_reuse("u1", 1000, "c1".to_string(), "csrf-a".to_string()).unwrap();
    m.issue_or_reuse("u2", 1000, "c2".to_string(), "csrf-x".to_string()).unwrap();
    let (t, e) = m.issue_or_reuse("u1", 1000 + CSRF_TTL_SECS, "c3".to_string(), "csrf-b".to_string()).unwrap();
    assert_eq!(t, "csrf-b");
    assert_eq!(e, 1000 + 2 * CSRF_TTL_SECS);
    assert_eq!(m.len(), 2);
    let owners: Vec<(String, String)> =
        m.tokens.iter().map(|t| (t.user_id.clone(), t.token.clone())).collect();
    assert_eq!(
        owners,
        vec![
            ("u2".to_string(), "csrf-x".to_string()),
            ("u1".to_string(), "csrf-b".to_string())
        ]
    );
}

#[test]
fn most_recently_issued_current_csrf_token_is_the_one_reused() {
    let mut m = CsrfTokenManager::new();
    m.issue_or_reuse("u1", 1000, "c1".to_string(), "old".to_string()).unwrap();
    // A second record for the same user, as another instance may have stored it.
    let mut newer = m.tokens[0].clone();
    newer.token = "new".to_string();
    newer.expires_at = 9000;
    m.tokens.push(newer);
    let (t, e) = m.issue_or_reuse("u1", 1500, "c".to_string(), "fresh".to_string()).unwrap();
    assert_eq!((t.as_str(), e), ("new", 9000));
    assert_eq!(m.position_of_current("u1", 1500), Some(1));
    assert_eq!(m.position_of_current("u1", 5000), Some(1));
    assert_eq!(m.position_of_current("u1", 9000), None);
}

#[test]
fn csrf_validation_needs_user_token_and_time() {
    let mut m = CsrfTokenManager::new();
    m.issue_or_reuse("u1", 1000, "c1".to_string(), "csrf-a".to_string()).unwrap();
    assert!(m.validate("u1", "csrf-a", 1000));
    assert!(m.validate("u1", "csrf-a", 1000 + CSRF_TTL_SECS - 1));
    // expired
    assert!(!m.validate("u1", "csrf-a", 1000 + CSRF_TTL_SECS));
    // token of another user
    assert!(!m.validate("u2", "csrf-a", 1000));
    // unknown token
    assert!(!m.validate("u1", "csrf-b", 1000));
    assert!(!m.validate("u1", "", 1000));
}

#[test]
fn new_csrf_token_with_a_text_on_record_is_refused() {
    let mut m = CsrfTokenManager::new();
    m.issue_or_reuse("u1", 1000, "c1".to_string(), "same".to_string()).unwrap();
    let r = m.issue_or_reuse("u2", 1000, "c2".to_string(), "same".to_string());
    assert_eq!(r, Err(AuthError::Internal));
    assert_eq!(m.len(), 1);
    assert!(m.has_text("same"));
    assert!(!m.has_text("other"));
    assert!(m.is_well_formed());
    let copy = m.tokens[0].clone();
    m.tokens.push(copy);
    assert!(!m.is_well_formed());
}

#[test]
fn csrf_purge_and_removal_touch_one_user() {
    let mut m = CsrfTokenManager::new();
    m.issue_or_reuse("u1", 1000, "c1".to_string(), "a".to_string()).unwrap();
    m.issue_or_reuse("u2", 1000, "c2".to_string(), "b".to_string()).unwrap();
    m.purge_expired("u1", 999_999);
    assert_eq!(m.len(), 1);
    assert_eq!(m.tokens[0].user_id, "u2");
    m.purge_expired("u2", 1000 + CSRF_TTL_SECS - 1);
    assert_eq!(m.len(), 1);
    m.remove_user("u2");
    assert_eq!(m.len(), 0);
}

#[test]
fn one_time_token_lifetimes() {
    assert_eq!(VERIFICATION_TTL_SECS, 24 * 3600);
    assert_eq!(RESET_TTL_SECS, 3600);
    assert_eq!(TokenKind::EmailVerification.ttl(), 86_400);
    assert_eq!(TokenKind::PasswordReset.ttl(), 3_600);
}

#[test]
fn one_time_token_is_consumed_exactly_once() {
    let mut issuer = OneTimeTokenIssuer::new();
    issuer
        .issue("i1".to_string(), "u1", "tok".to_string(), TokenKind::PasswordReset, None, 1000)
        .unwrap();
    assert_eq!(issuer.consume("tok", TokenKind::PasswordReset, 1500), Some("u1".to_string()));
    assert_eq!(issuer.tokens[0].used_at, Some(1500));
    assert_eq!(issuer.consume("tok", TokenKind::PasswordReset, 1501), None);
    assert_eq!(issuer.consume("tok", TokenKind::PasswordReset, 1500), None);
    assert_eq!(issuer.consume("tok", TokenKind::EmailVerification, 1501), None);
    assert_eq!(issuer.tokens[0].used_at, Some(1500));
}

#[test]
fn one_time_token_expires_after_its_lifetime() {
    let mut issuer = OneTimeTokenIssuer::new();
    issuer
        .issue("i1".to_string(), "u1", "r".to_string(), TokenKind::PasswordReset, None, 1000)
        .unwrap();
    issuer
        .issue(
            "i2".to_string(),
            "u1",
            "v".to_string(),
            TokenKind::EmailVerification,
            Some("demo@x.com".to_string()),
            1000,
        )
        .unwrap();
    assert_eq!(issuer.tokens[0].expires_at, 1000 + RESET_TTL_SECS);
    assert_eq!(issuer.tokens[1].expires_at, 1000 + VERIFICATION_TTL_SECS);
    assert_eq!(issuer.tokens[1].email, Some("demo@x.com".to_string()));
    assert_eq!(issuer.consume("r", TokenKind::PasswordReset, 1000 + RESET_TTL_SECS + 1), None);
    assert_eq!(issuer.tokens[0].used_at, None);
    assert_eq!(
        issuer.consume("r", TokenKind::PasswordReset, 1000 + RESET_TTL_SECS),
        Some("u1".to_string())
    );
    assert_eq!(
        issuer.consume("v", TokenKind::EmailVerification, 1000 + VERIFICATION_TTL_SECS + 1),
        None
    );
    assert_eq!(
        issuer.consume("v", TokenKind::EmailVerification, 1000 + VERIFICATION_TTL_SECS),
        Some("u1".to_string())
    );
}

#[test]
fn one_time_token_of_the_other_kind_or_unknown_is_refused() {
    let mut issuer = OneTimeTokenIssuer::new();
    issuer
        .issue("i1".to_string(), "u1", "tok".to_string(), TokenKind::PasswordReset, None, 1000)
        .unwrap();
    assert_eq!(issuer.consume("tok", TokenKind::EmailVerification, 1001), None);
    assert_eq!(issuer.consume("nope", TokenKind::PasswordReset, 1001), None);
    assert_eq!(issuer.tokens[0].used_at, None);
    assert_eq!(issuer.consume("tok", TokenKind::PasswordReset, 1001), Some("u1".to_string()));
}

#[test]
fn issuing_purges_the_users_expired_tokens_and_refuses_a_known_text() {
    let mut issuer = OneTimeTokenIssuer::new();
    issuer
        .issue("i1".to_string(), "u1", "old".to_string(), TokenKind::PasswordReset, None, 1000)
        .unwrap();
    issuer
        .issue("i2".to_string(), "u2", "other".to_string(), TokenKind::PasswordReset, None, 1000)
        .unwrap();
    let late = 1000 + RESET_TTL_SECS + 1;
    assert_eq!(
        issuer.issue("i3".to_string(), "u1", "other".to_string(), TokenKind::PasswordReset, None, late),
        Err(AuthError::Internal)
    );
    // The purge happened, the issue did not.
    assert_eq!(issuer.len(), 1);
    assert_eq!(issuer.tokens[0].token, "other");
    assert_eq!(
        issuer.issue("i3".to_string(), "u1", "new".to_string(), TokenKind::PasswordReset, None, late),
        Ok(())
    );
    assert_eq!(issuer.len(), 2);
    assert_eq!(issuer.position_of("new"), Some(1));
    assert!(issuer.is_well_formed());
    issuer.remove_user("u2");
    assert_eq!(issuer.len(), 1);
    assert_eq!(issuer.tokens[0].user_id, "u1");
}

#[test]
fn issuer_well_formedness_check_finds_a_doubled_token() {
    let mut issuer = OneTimeTokenIssuer::new();
    issuer
        .issue("i1".to_string(), "u1", "tok".to_string(), TokenKind::PasswordReset, None, 1000)
        .unwrap();
    let copy = issuer.tokens[0].clone();
    issuer.tokens.push(copy);
    assert!(!issuer.is_well_formed());
}
