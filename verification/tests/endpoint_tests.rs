use nivaro_backend::clock::{now, timestamp_from};
use nivaro_backend::error::{AuthError, ValidationIssue};
use nivaro_backend::lockout::MAX_TIMESTAMP;
use nivaro_backend::meetings::{
    apply_updates, create_meeting, create_meeting_at, create_rsvp, create_rsvp_at,
    delete_meeting, get_meeting, get_meetings, get_mock_meetings, get_mock_rsvps, get_rsvps,
    update_meeting, CreateMeetingRequest, CreateRSVPRequest, UpdateMeetingRequest,
};
use nivaro_backend::models::{ApiResponse, User};
use nivaro_backend::onetime::TokenKind;
use nivaro_backend::routes::{get_allowed_origin, handle_auth, BearerRule, Endpoint, Method};
use nivaro_backend::service::{AuthService, Credentials};
use nivaro_backend::sessions::SESSION_TTL_SECS;

// bcrypt at cost 4 of "Passw0rd!".
const LOW_COST_HASH: &str = "$2b$04$abcdefghijklmnopqrstuuchGdllX0O2ZthG6oyaPSbmBrCIbnHlu";
const SECRET: &str = "a-server-side-secret";

fn service_with_demo() -> AuthService {
    let mut svc = AuthService::new(SECRET.to_string()).unwrap();
    svc.users
        .create_with_hash("u1".to_string(), "demo@x.com", "Demo", LOW_COST_HASH.to_string(), 1000)
        .unwrap();
    svc
}

struct Signed {
    header: String,
    token: String,
    csrf: String,
}

impl Signed {
    fn creds(&self) -> Credentials<'_> {
        Credentials { authorization: Some(&self.header), cookie: None, csrf: Some(&self.csrf) }
    }
}

fn sign_in(svc: &mut AuthService, now: u64, tag: &str) -> Signed {
    let reply = svc.login_at("demo@x.com", "Passw0rd!", now, format!("sess-{}", tag)).unwrap();
    let header = format!("Bearer {}", reply.token);
    let (csrf, _) = svc
        .get_csrf_token_at(
            &Credentials { authorization: Some(&header), cookie: None, csrf: None },
            now,
            format!("csrf-id-{}", tag),
            format!("csrf-{}", tag),
        )
        .unwrap();
    Signed { header, token: reply.token, csrf }
}

#[test]
fn current_user_is_the_subject_of_the_bearer_token() {
    let mut svc = service_with_demo();
    let me = sign_in(&mut svc, 100, "a");
    let user: User = svc.get_current_user_at(&me.creds(), 100).unwrap();
    assert_eq!(user.id, "u1");
    assert_eq!(user.email, "demo@x.com");
    assert_eq!(user.name, "Demo");
    assert_eq!(user.created_at, 1000);
    let none = Credentials { authorization: None, cookie: None, csrf: None };
    assert_eq!(svc.get_current_user_at(&none, 100).err(), Some(AuthError::Unauthorized));
    assert_eq!(
        svc.get_current_user_at(&me.creds(), 100 + SESSION_TTL_SECS).err(),
        Some(AuthError::Unauthorized)
    );
    svc.users.remove("u1");
    assert_eq!(svc.get_current_user_at(&me.creds(), 100).err(), Some(AuthError::NotFound));
    assert_eq!(AuthError::NotFound.status_code(), 404);
}

#[test]
fn change_password_keeps_only_the_callers_session() {
    let mut svc = service_with_demo();
    let first = sign_in(&mut svc, 100, "a");
    let second = svc.login_at("demo@x.com", "Passw0rd!", 101, "sess-b".to_string()).unwrap();
    assert_eq!(svc.sessions.list_active("u1", 102).len(), 2);
    assert_eq!(svc.change_password_at(&first.creds(), "Passw0rd!", "N3w!Passw", 102), Ok(()));
    let live = svc.sessions.list_active("u1", 103);
    assert_eq!(live.len(), 1);
    assert_eq!(live[0].token, first.token);
    assert!(!svc.sessions.is_live(&second.token, 103));
    assert!(svc.login_at("demo@x.com", "N3w!Passw", 104, "sess-c".to_string()).is_ok());
    assert_eq!(
        svc.login_at("demo@x.com", "Passw0rd!", 105, "sess-d".to_string()).err(),
        Some(AuthError::Unauthorized)
    );
}

#[test]
fn change_password_refusals_change_nothing() {
    let mut svc = service_with_demo();
    let me = sign_in(&mut svc, 100, "a");
    let no_csrf = Credentials { authorization: Some(&me.header), cookie: None, csrf: None };
    let nobody = Credentials { authorization: None, cookie: None, csrf: Some(&me.csrf) };
    assert_eq!(
        svc.change_password_at(&nobody, "Passw0rd!", "N3w!Passw", 101),
        Err(AuthError::Unauthorized)
    );
    assert_eq!(
        svc.change_password_at(&no_csrf, "Passw0rd!", "N3w!Passw", 101),
        Err(AuthError::Forbidden)
    );
    assert_eq!(
        svc.change_password_at(&me.creds(), "Passw0rd!", "weak", 101),
        Err(AuthError::Validation(ValidationIssue::WeakPassword))
    );
    assert_eq!(
        svc.change_password_at(&me.creds(), "wrong", "N3w!Passw", 101),
        Err(AuthError::Validation(ValidationIssue::WrongCurrentPassword))
    );
    assert_eq!(svc.users.find_by_id("u1").unwrap().password_hash, LOW_COST_HASH);
    assert!(svc.sessions.is_live(&me.token, 101));
}

#[test]
fn update_profile_applies_what_is_given_and_not_blank() {
    let mut svc = service_with_demo();
    svc.users.mark_email_verified("u1", 50);
    let me = sign_in(&mut svc, 100, "a");
    assert_eq!(svc.update_profile_at(&me.creds(), Some("Renamed"), None, 101), Ok(()));
    let u = svc.users.find_by_id("u1").unwrap();
    assert_eq!((u.name.as_str(), u.email_verified, u.updated_at), ("Renamed", true, 101));
    assert_eq!(svc.update_profile_at(&me.creds(), Some("  "), Some("new@x.com"), 102), Ok(()));
    let u = svc.users.find_by_id("u1").unwrap();
    assert_eq!(u.name, "Renamed");
    assert_eq!(u.email, "new@x.com");
    assert!(!u.email_verified);
}

#[test]
fn update_profile_refusals() {
    let mut svc = service_with_demo();
    svc.users
        .create_with_hash("u2".to_string(), "two@x.com", "Two", LOW_COST_HASH.to_string(), 1)
        .unwrap();
    let me = sign_in(&mut svc, 100, "a");
    let no_updates = Err(AuthError::Validation(ValidationIssue::NoUpdates));
    assert_eq!(svc.update_profile_at(&me.creds(), None, None, 101), no_updates);
    assert_eq!(svc.update_profile_at(&me.creds(), Some(""), Some(" "), 101), no_updates);
    assert_eq!(svc.update_profile_at(&me.creds(), None, Some("not-an-address"), 101), no_updates);
    assert_eq!(
        svc.update_profile_at(&me.creds(), Some("N"), Some("TWO@x.com"), 101),
        Err(AuthError::Conflict)
    );
    assert_eq!(AuthError::Conflict.status_code(), 409);
    let no_csrf = Credentials { authorization: Some(&me.header), cookie: None, csrf: None };
    assert_eq!(svc.update_profile_at(&no_csrf, Some("N"), None, 101), Err(AuthError::Forbidden));
    let u = svc.users.find_by_id("u1").unwrap();
    assert_eq!((u.name.as_str(), u.updated_at), ("Demo", 1000));
}

#[test]
fn delete_account_removes_all_that_belongs_to_the_user() {
    let mut svc = service_with_demo();
    svc.users
        .create_with_hash("u2".to_string(), "two@x.com", "Two", LOW_COST_HASH.to_string(), 1)
        .unwrap();
    let me = sign_in(&mut svc, 100, "a");
    svc.login_at("two@x.com", "Passw0rd!", 100, "sess-two".to_string()).unwrap();
    svc.forgot_password_at("demo@x.com", 100, "r1".to_string(), "reset-1".to_string());
    svc.forgot_password_at("two@x.com", 100, "r2".to_string(), "reset-2".to_string());
    assert_eq!(svc.delete_account_at(&me.creds(), 101), Ok(()));
    assert!(svc.users.find_by_id("u1").is_none());
    assert!(svc.users.find_by_id("u2").is_some());
    assert_eq!(svc.sessions.len(), 1);
    assert_eq!(svc.sessions.sessions[0].user_id, "u2");
    assert_eq!(svc.csrf.len(), 0);
    assert_eq!(svc.one_time.len(), 1);
    assert_eq!(svc.one_time.tokens[0].user_id, "u2");
    assert!(svc.is_well_formed());
    // The address is free again.
    assert!(svc
        .users
        .create_with_hash("u3".to_string(), "demo@x.com", "Again", LOW_COST_HASH.to_string(), 102)
        .is_ok());
}

#[test]
fn social_login_creates_an_account_without_password_once() {
    let mut svc = service_with_demo();
    let first = svc
        .social_login_at(
            "soc@x.com",
            "Soc",
            Some("pic".to_string()),
            100,
            "s-user".to_string(),
            "s-sess".to_string(),
        )
        .unwrap();
    assert_eq!(first.user.id, "s-user");
    assert!(first.user.email_verified);
    assert_eq!(first.user.avatar, Some("pic".to_string()));
    assert_eq!(first.expires_at, 100 + SESSION_TTL_SECS);
    assert_eq!(svc.users.find_by_id("s-user").unwrap().password_hash, "");
    assert!(svc.sessions.is_live(&first.token, 100));
    let again = svc
        .social_login_at("SOC@x.com", "Other", None, 200, "unused".to_string(), "s2".to_string())
        .unwrap();
    assert_eq!(again.user.id, "s-user");
    assert_eq!(again.user.name, "Soc");
    assert_eq!(svc.users.len(), 2);
    assert_eq!(svc.sessions.len(), 2);
    // A password login to the same account is refused like any wrong password.
    assert_eq!(
        svc.login_at("soc@x.com", "Passw0rd!", 300, "s3".to_string()).err(),
        Some(AuthError::Unauthorized)
    );
}

#[test]
fn social_login_signs_an_existing_password_account_in() {
    let mut svc = service_with_demo();
    let reply = svc
        .social_login_at("demo@x.com", "X", None, 100, "unused".to_string(), "s1".to_string())
        .unwrap();
    assert_eq!(reply.user.id, "u1");
    assert!(!reply.user.email_verified);
    assert_eq!(svc.users.len(), 1);
}

#[test]
fn social_login_refusals() {
    let mut svc = service_with_demo();
    assert_eq!(
        svc.social_login_at("", "X", None, 100, "id".to_string(), "s".to_string()).err(),
        Some(AuthError::Validation(ValidationIssue::MissingFields))
    );
    assert_eq!(
        svc.social_login_at("new@x.com", "X", None, 100, "u1".to_string(), "s".to_string()).err(),
        Some(AuthError::Internal)
    );
    assert_eq!(svc.users.len(), 1);
    assert_eq!(svc.sessions.len(), 0);
}

#[test]
fn logout_revokes_the_session_of_the_presented_token() {
    let mut svc = service_with_demo();
    let me = sign_in(&mut svc, 100, "a");
    let other = svc.login_at("demo@x.com", "Passw0rd!", 101, "sess-b".to_string()).unwrap();
    svc.logout(&Credentials { authorization: None, cookie: None, csrf: None });
    assert_eq!(svc.sessions.list_active("u1", 102).len(), 2);
    let cookie = format!("auth_token={}", me.token);
    svc.logout(&Credentials { authorization: None, cookie: Some(&cookie), csrf: None });
    let live = svc.sessions.list_active("u1", 102);
    assert_eq!(live.len(), 1);
    assert_eq!(live[0].token, other.token);
}

#[test]
fn own_sessions_are_listed_and_revoked() {
    let mut svc = service_with_demo();
    let me = sign_in(&mut svc, 100, "a");
    svc.login_at("demo@x.com", "Passw0rd!", 101, "sess-b".to_string()).unwrap();
    let listed = svc.get_user_sessions_at(&me.creds(), 102).unwrap();
    assert_eq!(listed.len(), 2);
    assert_eq!(listed[0].id, "sess-a");
    assert_eq!(listed[1].id, "sess-b");
    let none = Credentials { authorization: None, cookie: None, csrf: None };
    assert_eq!(svc.get_user_sessions_at(&none, 102).err(), Some(AuthError::Unauthorized));
    assert_eq!(svc.revoke_all_sessions_at(&me.creds(), 103), Ok(()));
    assert_eq!(svc.get_user_sessions_at(&me.creds(), 104).unwrap().len(), 0);
}

#[test]
fn csrf_token_endpoint_needs_a_bearer_token_and_reuses() {
    let mut svc = service_with_demo();
    let me = sign_in(&mut svc, 100, "a");
    let none = Credentials { authorization: None, cookie: None, csrf: None };
    assert_eq!(
        svc.get_csrf_token_at(&none, 100, "i".to_string(), "t".to_string()),
        Err(AuthError::Unauthorized)
    );
    let again = svc.get_csrf_token_at(&me.creds(), 200, "i".to_string(), "t".to_string()).unwrap();
    assert_eq!(again, (me.csrf.clone(), 100 + 3600));
    assert_eq!(svc.csrf.len(), 1);
}

#[test]
fn wall_clock_endpoints_work_together() {
    let mut svc = service_with_demo();
    let reply = svc.login("demo@x.com", "Passw0rd!").unwrap();
    assert_eq!(reply.user.id, "u1");
    let header = format!("Bearer {}", reply.token);
    let plain = Credentials { authorization: Some(&header), cookie: None, csrf: None };
    assert_eq!(svc.get_user_id_from_token(&plain), Some("u1".to_string()));
    assert_eq!(svc.get_current_user(&plain).unwrap().email, "demo@x.com");
    assert!(!svc.verify_csrf_token(&plain));
    let (csrf, expires_at) = svc.get_csrf_token(&plain).unwrap();
    assert_eq!(csrf.len(), 36);
    assert!(expires_at > reply.expires_at - SESSION_TTL_SECS);
    let full = Credentials { authorization: Some(&header), cookie: None, csrf: Some(&csrf) };
    assert!(svc.verify_csrf_token(&full));
    assert_eq!(svc.get_user_sessions(&full).unwrap().len(), 1);
    assert_eq!(svc.update_profile(&full, Some("Renamed"), None), Ok(()));
    assert_eq!(svc.revoke_all_sessions(&full), Ok(()));
    assert_eq!(svc.get_user_sessions(&full).unwrap().len(), 0);
    assert_eq!(svc.login("demo@x.com", "wrong").err(), Some(AuthError::Unauthorized));
    assert_eq!(svc.delete_account(&full), Ok(()));
    assert_eq!(svc.users.len(), 0);
}

#[test]
fn wall_clock_signup_and_recovery_work_together() {
    let mut svc = AuthService::new(SECRET.to_string()).unwrap();
    let reply = svc.signup("demo@x.com", "Passw0rd!", "Demo").unwrap();
    assert_eq!(reply.user.id.len(), 36);
    assert_ne!(reply.user.id, reply.verification_token);
    assert_eq!(svc.signup("demo@x.com", "Passw0rd!", "Demo").err(), Some(AuthError::Conflict));
    assert_eq!(svc.verify_email(&reply.verification_token), Ok(()));
    assert_eq!(
        svc.verify_email(&reply.verification_token),
        Err(AuthError::InvalidOrExpiredToken)
    );
    let mail = svc.forgot_password("demo@x.com").mail.unwrap();
    assert_eq!(svc.reset_password(&mail.token, "N3w!Passw"), Ok(()));
    assert_eq!(svc.one_time.tokens.iter().filter(|t| t.used_at.is_some()).count(), 2);
    assert_eq!(svc.one_time.tokens[1].kind, TokenKind::PasswordReset);
}

#[test]
fn wall_clock_social_login_and_change_password() {
    let mut svc = service_with_demo();
    let soc = svc.social_login("soc@x.com", "Soc", None).unwrap();
    assert_eq!(soc.user.id.len(), 36);
    let reply = svc.login("demo@x.com", "Passw0rd!").unwrap();
    let header = format!("Bearer {}", reply.token);
    let plain = Credentials { authorization: Some(&header), cookie: None, csrf: None };
    let (csrf, _) = svc.get_csrf_token(&plain).unwrap();
    let full = Credentials { authorization: Some(&header), cookie: None, csrf: Some(&csrf) };
    assert_eq!(
        svc.change_password(&full, "wrong", "N3w!Passw"),
        Err(AuthError::Validation(ValidationIssue::WrongCurrentPassword))
    );
    assert_eq!(svc.change_password(&plain, "Passw0rd!", "N3w!Passw"), Err(AuthError::Forbidden));
}

#[test]
fn error_statuses_and_messages() {
    let all = [
        (AuthError::Validation(ValidationIssue::MissingFields), 400),
        (AuthError::Validation(ValidationIssue::InvalidEmail), 400),
        (AuthError::Validation(ValidationIssue::WeakPassword), 400),
        (AuthError::Validation(ValidationIssue::WrongCurrentPassword), 400),
        (AuthError::Validation(ValidationIssue::NoUpdates), 400),
        (AuthError::Unauthorized, 401),
        (AuthError::Forbidden, 403),
        (AuthError::NotFound, 404),
        (AuthError::Conflict, 409),
        (AuthError::AccountLocked, 423),
        (AuthError::RateLimited, 429),
        (AuthError::InvalidOrExpiredToken, 400),
        (AuthError::Internal, 500),
    ];
    for (e, status) in all {
        assert_eq!(e.status_code(), status);
        assert!(!e.message().is_empty());
    }
    assert_eq!(AuthError::Unauthorized.message(), "Unauthorized");
    assert_eq!(AuthError::Forbidden.message(), "CSRF token validation failed");
    assert_eq!(
        AuthError::AccountLocked.message(),
        "Account is locked due to too many failed login attempts"
    );
    assert_eq!(AuthError::InvalidOrExpiredToken.message(), "Invalid or expired token");
}

#[test]
fn routes_follow_the_table() {
    let table = [
        (Method::Post, "/auth/signup", Endpoint::Signup, BearerRule::NotNeeded, false),
        (Method::Post, "/auth/login", Endpoint::Login, BearerRule::NotNeeded, false),
        (Method::Post, "/auth/logout", Endpoint::Logout, BearerRule::Optional, false),
        (Method::Post, "/auth/forgot-password", Endpoint::ForgotPassword, BearerRule::NotNeeded, false),
        (Method::Post, "/auth/reset-password", Endpoint::ResetPassword, BearerRule::NotNeeded, false),
        (Method::Post, "/auth/change-password", Endpoint::ChangePassword, BearerRule::Required, true),
        (Method::Post, "/auth/verify-email", Endpoint::VerifyEmail, BearerRule::NotNeeded, false),
        (Method::Get, "/auth/me", Endpoint::CurrentUser, BearerRule::Required, false),
        (Method::Put, "/auth/profile", Endpoint::UpdateProfile, BearerRule::Required, true),
        (Method::Delete, "/auth/account", Endpoint::DeleteAccount, BearerRule::Required, true),
        (Method::Post, "/auth/social", Endpoint::SocialLogin, BearerRule::NotNeeded, false),
        (Method::Get, "/auth/sessions", Endpoint::ListSessions, BearerRule::Required, false),
        (Method::Delete, "/auth/sessions", Endpoint::RevokeAllSessions, BearerRule::Required, true),
        (Method::Get, "/csrf-token", Endpoint::CsrfToken, BearerRule::Required, false),
    ];
    for (method, path, endpoint, bearer, csrf) in table {
        assert_eq!(handle_auth(method, path), Some(endpoint));
        assert_eq!(endpoint.bearer_rule(), bearer);
        assert_eq!(endpoint.needs_csrf(), csrf);
    }
    assert_eq!(handle_auth(Method::Get, "/auth/signup"), None);
    assert_eq!(handle_auth(Method::Post, "/auth/me"), None);
    assert_eq!(handle_auth(Method::Put, "/auth/sessions"), None);
    assert_eq!(handle_auth(Method::Delete, "/auth/profile"), None);
    assert_eq!(handle_auth(Method::Post, "/auth/signup/"), None);
    assert_eq!(handle_auth(Method::Get, ""), None);
}

#[test]
fn allowed_origin_is_local_or_the_default() {
    assert_eq!(get_allowed_origin(Some("http://localhost:3001")), "http://localhost:3001");
    assert_eq!(get_allowed_origin(Some("http://localhost:8080")), "http://localhost:8080");
    assert_eq!(get_allowed_origin(Some("http://192.168.1.245:3000")), "http://192.168.1.245:3000");
    assert_eq!(get_allowed_origin(Some("https://evil.example")), "http://localhost:3000");
    assert_eq!(get_allowed_origin(Some("http://localhost")), "http://localhost:3000");
    assert_eq!(get_allowed_origin(None), "http://localhost:3000");
}

#[test]
fn clock_reading_is_a_timestamp_in_range() {
    assert_eq!(timestamp_from(0), Some(0));
    assert_eq!(timestamp_from(1_700_000_000), Some(1_700_000_000));
    assert_eq!(timestamp_from(-1), None);
    assert_eq!(timestamp_from(MAX_TIMESTAMP as i64), Some(MAX_TIMESTAMP));
    assert_eq!(timestamp_from(MAX_TIMESTAMP as i64 + 1), None);
    let t = now().unwrap();
    assert!(t > 1_577_836_800 && t <= MAX_TIMESTAMP);
}

#[test]
fn api_response_carries_data_or_an_error() {
    let ok = ApiResponse::success(7u32);
    assert!(ok.success);
    assert_eq!(ok.data, Some(7));
    assert_eq!(ok.error, None);
    let err: ApiResponse<u32> = ApiResponse::error("boom".to_string());
    assert!(!err.success);
    assert_eq!(err.data, None);
    assert_eq!(err.error, Some("boom".to_string()));
}

#[test]
fn sample_meetings_and_replies() {
    let meetings = get_mock_meetings();
    assert_eq!(meetings.len(), 3);
    assert_eq!(meetings[0].id, "1");
    assert_eq!(meetings[0].title, "Weekly Club Meeting");
    assert_eq!(meetings[0].max_attendees, Some(50));
    assert_eq!(meetings[1].meeting_type, "workshop");
    assert_eq!(meetings[1].location, "Art Building, Studio 2");
    assert_eq!(meetings[2].id, "3");
    assert_eq!(meetings[2].max_attendees, None);
    assert_eq!(meetings[2].created_at, "2024-01-05T12:00:00Z");
    assert!(meetings[0].agenda.starts_with("# Weekly Meeting Agenda\n\n## Topics\n1. Welcome"));
    assert_eq!(get_meetings().len(), 3);
    let rsvps = get_mock_rsvps();
    assert_eq!(rsvps.len(), 2);
    assert_eq!(rsvps[0].user_name, "John Doe");
    assert_eq!(rsvps[1].status, "maybe");
}

#[test]
fn meeting_is_found_by_id() {
    assert_eq!(get_meeting("2").unwrap().title, "Photography Workshop");
    assert!(get_meeting("4").is_none());
    assert!(get_meeting("").is_none());
    assert!(delete_meeting("1"));
    assert!(!delete_meeting("9"));
}

fn no_updates() -> UpdateMeetingRequest {
    UpdateMeetingRequest {
        title: None,
        description: None,
        meeting_type: None,
        date: None,
        start_time: None,
        end_time: None,
        location: None,
        agenda: None,
        max_attendees: None,
        summary: None,
        recording_url: None,
    }
}

#[test]
fn meeting_update_replaces_what_is_given() {
    let mut updates = no_updates();
    updates.title = Some("New title".to_string());
    updates.max_attendees = Some(5);
    updates.summary = Some("Went well".to_string());
    let m = update_meeting("3", updates).unwrap();
    assert_eq!(m.id, "3");
    assert_eq!(m.title, "New title");
    assert_eq!(m.max_attendees, Some(5));
    assert_eq!(m.summary, Some("Went well".to_string()));
    assert_eq!(m.location, "Student Lounge");
    assert_eq!(m.recording_url, None);
    assert!(update_meeting("9", no_updates()).is_none());
    let same = apply_updates(get_meeting("1").unwrap(), no_updates());
    assert_eq!(same.title, "Weekly Club Meeting");
    assert_eq!(same.max_attendees, Some(50));
}

#[test]
fn replies_are_filtered_by_meeting() {
    assert_eq!(get_rsvps("1").len(), 2);
    assert_eq!(get_rsvps("2").len(), 0);
    assert_eq!(get_rsvps("1")[1].user_id, "user2");
}

fn meeting_request() -> CreateMeetingRequest {
    CreateMeetingRequest {
        title: "T".to_string(),
        description: "D".to_string(),
        meeting_type: "meeting".to_string(),
        date: "2024-02-01".to_string(),
        start_time: "10:00".to_string(),
        end_time: "11:00".to_string(),
        location: "L".to_string(),
        agenda: "A".to_string(),
        max_attendees: Some(3),
    }
}

#[test]
fn created_meeting_and_reply_take_the_request_fields() {
    let m = create_meeting_at(meeting_request(), "m1".to_string(), "2024-01-01T00:00:00Z".to_string());
    assert_eq!(m.id, "m1");
    assert_eq!(m.title, "T");
    assert_eq!(m.created_by, "admin");
    assert_eq!(m.created_at, "2024-01-01T00:00:00Z");
    assert_eq!(m.max_attendees, Some(3));
    assert_eq!(m.summary, None);
    let r = create_rsvp_at(
        "m1",
        CreateRSVPRequest { status: "attending".to_string() },
        "r1".to_string(),
        "2024-01-02T00:00:00Z".to_string(),
    );
    assert_eq!(r.id, "r1");
    assert_eq!(r.meeting_id, "m1");
    assert_eq!(r.user_id, "current-user");
    assert_eq!(r.user_name, "Current User");
    assert_eq!(r.user_email, "user@example.com");
    assert_eq!(r.status, "attending");
}

#[test]
fn wall_clock_meeting_and_reply_get_fresh_ids_and_a_timestamp() {
    let a = create_meeting(meeting_request());
    let b = create_meeting(meeting_request());
    assert_eq!(a.id.len(), 36);
    assert_ne!(a.id, b.id);
    assert!(a.created_at.contains('T'));
    assert!(a.created_at.starts_with("20"));
    let r = create_rsvp("1", CreateRSVPRequest { status: "maybe".to_string() });
    assert_eq!(r.id.len(), 36);
    assert_eq!(r.meeting_id, "1");
    assert!(r.rsvp_date.contains('T'));
}

#[test]
fn signup_reply_is_created_with_a_profile_and_no_token() {
    let mut svc = AuthService::new(SECRET.to_string()).unwrap();
    let reply = svc
        .signup_at(
            "demo@x.com",
            "Passw0rd!",
            "Demo",
            1000,
            "u1".to_string(),
            "v1".to_string(),
            "verify-tok".to_string(),
        )
        .unwrap();
    assert_eq!(Endpoint::Signup.success_status(), 201);
    let body = reply.into_response();
    assert!(body.success);
    let user = body.user.unwrap();
    assert_eq!(user.email, "demo@x.com");
    assert!(!user.email_verified);
    assert_eq!(body.token, None);
    assert_eq!(body.expires_at, None);
    assert_eq!(body.error, None);
}

#[test]
fn login_reply_carries_token_and_expiry_and_failure_only_a_text() {
    let mut svc = service_with_demo();
    let reply = svc.login_at("demo@x.com", "Passw0rd!", 10, "s".to_string()).unwrap();
    let token = reply.token.clone();
    assert_eq!(Endpoint::Login.success_status(), 200);
    let body = reply.into_response();
    assert!(body.success);
    assert_eq!(body.token, Some(token));
    assert_eq!(body.expires_at, Some(10 + SESSION_TTL_SECS));
    assert_eq!(body.user.unwrap().id, "u1");
    let failed = nivaro_backend::models::AuthResponse::failure(AuthError::Unauthorized);
    assert!(!failed.success);
    assert!(failed.user.is_none() && failed.token.is_none() && failed.expires_at.is_none());
    assert_eq!(failed.error, Some("Unauthorized".to_string()));
}

#[test]
fn change_password_given_follows_verdict_and_hash() {
    let mut svc = service_with_demo();
    let me = sign_in(&mut svc, 100, "a");
    svc.login_at("demo@x.com", "Passw0rd!", 101, "sess-b".to_string()).unwrap();
    let wrong = Err(AuthError::Validation(ValidationIssue::WrongCurrentPassword));
    assert_eq!(
        svc.change_password_given("u1", &me.token, Ok(false), Some("h".to_string()), 102),
        wrong
    );
    assert_eq!(
        svc.change_password_given("u1", &me.token, Err(AuthError::Internal), None, 102),
        Err(AuthError::Internal)
    );
    assert_eq!(
        svc.change_password_given("u1", &me.token, Ok(true), None, 102),
        Err(AuthError::Internal)
    );
    assert_eq!(
        svc.change_password_given("u9", &me.token, Ok(true), Some("h".to_string()), 102),
        Err(AuthError::NotFound)
    );
    assert_eq!(svc.users.find_by_id("u1").unwrap().password_hash, LOW_COST_HASH);
    assert_eq!(svc.sessions.list_active("u1", 102).len(), 2);
    assert_eq!(
        svc.change_password_given("u1", &me.token, Ok(true), Some("new-hash".to_string()), 103),
        Ok(())
    );
    assert_eq!(svc.users.find_by_id("u1").unwrap().password_hash, "new-hash");
    let live = svc.sessions.list_active("u1", 104);
    assert_eq!(live.len(), 1);
    assert_eq!(live[0].token, me.token);
}

#[test]
fn profile_update_and_removal_for_a_given_user() {
    let mut svc = service_with_demo();
    assert_eq!(svc.profile("u1").unwrap().name, "Demo");
    assert_eq!(svc.profile("u9").err(), Some(AuthError::NotFound));
    assert_eq!(
        svc.apply_profile_update("u1", None, None, 5),
        Err(AuthError::Validation(ValidationIssue::NoUpdates))
    );
    assert_eq!(svc.apply_profile_update("u1", None, Some("demo@x.com"), 5), Err(AuthError::Conflict));
    assert_eq!(svc.apply_profile_update("u9", Some("N"), None, 5), Err(AuthError::NotFound));
    assert_eq!(svc.apply_profile_update("u1", Some("N"), Some("n@x.com"), 6), Ok(()));
    let u = svc.profile("u1").unwrap();
    assert_eq!((u.name.as_str(), u.email.as_str(), u.updated_at), ("N", "n@x.com", 6));
    svc.sessions.create("s".to_string(), "u1", "tok", 7);
    svc.remove_account("u1");
    assert_eq!(svc.users.len(), 0);
    assert_eq!(svc.sessions.len(), 0);
    svc.remove_account("u1");
    assert_eq!(svc.users.len(), 0);
}

#[test]
fn social_login_given_uses_the_token_it_is_given() {
    let mut svc = service_with_demo();
    let none = svc.social_login_given(
        "soc@x.com",
        "Soc",
        None,
        100,
        "s-user".to_string(),
        "s1".to_string(),
        None,
    );
    assert_eq!(none.err(), Some(AuthError::Internal));
    assert_eq!(svc.users.len(), 1);
    let reply = svc
        .social_login_given(
            "soc@x.com",
            "Soc",
            None,
            100,
            "s-user".to_string(),
            "s1".to_string(),
            Some("tok".to_string()),
        )
        .unwrap();
    assert_eq!(reply.token, "tok");
    assert_eq!(reply.user.id, "s-user");
    assert_eq!(svc.sessions.sessions[0].user_id, "s-user");
    assert_eq!(svc.sessions.sessions[0].token, "tok");
}

#[test]
fn csrf_token_is_not_handed_to_an_account_that_is_gone() {
    let mut svc = service_with_demo();
    let me = sign_in(&mut svc, 100, "a");
    svc.remove_account("u1");
    assert!(svc.is_well_formed());
    assert_eq!(
        svc.get_csrf_token_at(&me.creds(), 101, "i".to_string(), "t".to_string()),
        Err(AuthError::NotFound)
    );
    assert_eq!(svc.csrf.len(), 0);
}

#[test]
fn well_formedness_check_finds_rows_without_an_account() {
    let mut svc = service_with_demo();
    let _ = sign_in(&mut svc, 100, "a");
    svc.forgot_password_at("demo@x.com", 100, "r".to_string(), "reset".to_string());
    assert!(svc.is_well_formed());
    assert!(svc.sessions_are_owned());
    assert!(svc.csrf_tokens_are_owned());
    assert!(svc.one_time_tokens_are_owned());
    // Taking the account away alone leaves its rows behind.
    svc.users.remove("u1");
    assert!(!svc.sessions_are_owned());
    assert!(!svc.csrf_tokens_are_owned());
    assert!(!svc.one_time_tokens_are_owned());
    assert!(!svc.is_well_formed());
    svc.sessions.remove_user("u1");
    assert!(svc.sessions_are_owned());
    assert!(!svc.is_well_formed());
    svc.csrf.remove_user("u1");
    svc.one_time.remove_user("u1");
    assert!(svc.is_well_formed());
}
