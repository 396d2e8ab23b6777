use session_gate::cookie::{clear_cookie_header, get_session_id, session_cookie_header};
use session_gate::gate::{gate_after_session, gate_after_user, gate_begin, GateStep, Rejection};
use session_gate::models::{Error, OAuthQuery, Session, StoreError, TokenResponse, User};
use session_gate::oauth::{
    authorize_url, callback_after_profile, callback_after_session, callback_after_token,
    callback_after_upsert, callback_begin, logout_begin, logout_reply, token_form, upsert_step,
    CallbackStep,
};
use session_gate::session::{
    check_session, create_session, get_current_timestamp, is_expired, new_session, resolve_user,
    seconds_left, Resolution, SessionCheck,
};
use session_gate::SESSION_LIFETIME_SECS;

fn user(id: &str) -> User {
    User {
        id: id.to_string(),
        global_name: Some("Rick".to_string()),
        username: "rick".to_string(),
        avatar: None,
        discriminator: "0".to_string(),
        email: "rick@example.com".to_string(),
        locale: "en-US".to_string(),
        mfa_enabled: false,
        banner_color: None,
        accent_color: Some(7),
        verified: true,
        flags: 0,
        premium_type: 0,
        public_flags: 0,
    }
}

fn session(id: &str, user_id: &str, expires_at: u64) -> Session {
    Session {
        id: id.to_string(),
        user_id: user_id.to_string(),
        ipv4: "127.0.0.1".to_string(),
        expires_at,
    }
}

fn store_error() -> StoreError {
    StoreError { message: "connection reset".to_string() }
}

fn is_unauthenticated(step: &GateStep) -> bool {
    matches!(step, GateStep::Reject(Rejection::Unauthenticated))
}

#[test]
fn cookie_alone() {
    assert_eq!(get_session_id("session_id=abc"), Some("abc".to_string()));
}

#[test]
fn cookie_among_others() {
    assert_eq!(get_session_id("theme=dark; session_id=xyz; lang=en"), Some("xyz".to_string()));
}

#[test]
fn cookie_first_pair_wins() {
    assert_eq!(get_session_id("session_id=one; session_id=two"), Some("one".to_string()));
}

#[test]
fn cookie_missing() {
    assert_eq!(get_session_id("theme=dark; lang=en"), None);
    assert_eq!(get_session_id(""), None);
}

#[test]
fn cookie_needs_separator_with_space() {
    assert_eq!(get_session_id("theme=dark;session_id=xyz"), None);
}

#[test]
fn cookie_empty_value() {
    assert_eq!(get_session_id("session_id="), Some(String::new()));
}

#[test]
fn cookie_name_must_match_exactly() {
    assert_eq!(get_session_id("xsession_id=abc; session_ids=def"), None);
}

#[test]
fn set_cookie_value() {
    assert_eq!(
        session_cookie_header("01HZX", 604800),
        "session_id=01HZX; Path=/; HttpOnly; Max-Age=604800"
    );
    assert_eq!(session_cookie_header("a", 9), "session_id=a; Path=/; HttpOnly; Max-Age=9");
    assert_eq!(
        session_cookie_header("a", 18446744073709551615),
        "session_id=a; Path=/; HttpOnly; Max-Age=18446744073709551615"
    );
}

#[test]
fn clearing_cookie_value() {
    assert_eq!(clear_cookie_header(), "session_id=; Path=/; HttpOnly; Max-Age=0");
}

#[test]
fn new_session_expires_after_a_week() {
    let s = new_session("sid".to_string(), "42".to_string(), "10.0.0.1".to_string(), 1000).unwrap();
    assert_eq!(s.id, "sid");
    assert_eq!(s.user_id, "42");
    assert_eq!(s.ipv4, "10.0.0.1");
    assert_eq!(s.expires_at, 1000 + 604800);
    assert_eq!(SESSION_LIFETIME_SECS, 604800);
}

#[test]
fn new_session_refuses_overflowing_expiry() {
    assert!(new_session("sid".to_string(), "42".to_string(), "ip".to_string(), u64::MAX).is_none());
    assert!(new_session("s".to_string(), "u".to_string(), "ip".to_string(), u64::MAX - 604800).is_some());
}

#[test]
fn created_session_ids_are_ulids() {
    let s = create_session("42".to_string(), "ip".to_string(), 5).unwrap();
    assert_eq!(s.id.len(), 26);
    assert!(s.id.chars().all(|c| "0123456789ABCDEFGHJKMNPQRSTVWXYZ".contains(c)));
    assert_eq!(s.expires_at, 5 + 604800);
}

#[test]
fn created_session_ids_differ() {
    let mut ids: Vec<String> = Vec::new();
    for _ in 0..64 {
        ids.push(create_session("42".to_string(), "ip".to_string(), 5).unwrap().id);
    }
    for i in 0..ids.len() {
        for j in (i + 1)..ids.len() {
            assert_ne!(ids[i], ids[j]);
        }
    }
    // The random part (last 16 characters) is not shared between two ids.
    assert_ne!(ids[0][10..], ids[1][10..]);
}

#[test]
fn clock_reads_after_epoch() {
    let t = get_current_timestamp().unwrap();
    assert!(t > 1_600_000_000);
}

#[test]
fn expiry_boundary() {
    let s = session("s", "u", 100);
    assert!(!is_expired(&s, 99));
    assert!(!is_expired(&s, 100));
    assert!(is_expired(&s, 101));
    assert_eq!(seconds_left(&s, 40), 60);
    assert_eq!(seconds_left(&s, 100), 0);
    assert_eq!(seconds_left(&s, 500), 0);
}

#[test]
fn check_session_cases() {
    assert!(matches!(check_session(None, 5), SessionCheck::NotFound));
    assert!(matches!(check_session(Some(session("s", "u", 4)), 5), SessionCheck::Expired));
    match check_session(Some(session("s", "u", 5)), 5) {
        SessionCheck::Active(s) => assert_eq!(s.id, "s"),
        _ => panic!("session should be active"),
    }
}

#[test]
fn resolve_orphaned_session_is_not_found() {
    assert!(matches!(resolve_user(session("s", "u", 5), None), Resolution::NotFound));
    match resolve_user(session("s", "u", 5), Some(user("u"))) {
        Resolution::Found(u, s) => {
            assert_eq!(u.id, "u");
            assert_eq!(s.user_id, "u");
        }
        _ => panic!("user should be found"),
    }
}

#[test]
fn resolve_is_consistent_within_validity() {
    for now in [0u64, 50, 100] {
        match check_session(Some(session("s", "u", 100)), now) {
            SessionCheck::Active(s) => match resolve_user(s, Some(user("u"))) {
                Resolution::Found(u, _) => assert_eq!(u.id, "u"),
                _ => panic!("user should be found"),
            },
            _ => panic!("session should be active"),
        }
    }
}

#[test]
fn expired_session_never_gives_user() {
    assert!(matches!(check_session(Some(session("s", "u", 100)), 101), SessionCheck::Expired));
    assert!(is_unauthenticated(&gate_after_session(Ok(Some(session("s", "u", 100))), 101)));
}

#[test]
fn gate_rejects_uniformly() {
    let no_cookie = gate_begin(None);
    let no_session_cookie = gate_begin(Some("theme=dark"));
    let unknown = gate_after_session(Ok(None), 10);
    let expired = gate_after_session(Ok(Some(session("s", "u", 9))), 10);
    let orphaned = gate_after_user(session("s", "u", 10), Ok(None));
    for step in [&no_cookie, &no_session_cookie, &unknown, &expired, &orphaned] {
        assert!(is_unauthenticated(step));
    }
}

#[test]
fn gate_store_failure_is_server_error() {
    assert!(matches!(gate_after_session(Err(store_error()), 10), GateStep::Reject(Rejection::ServerError)));
    assert!(matches!(
        gate_after_user(session("s", "u", 10), Err(store_error())),
        GateStep::Reject(Rejection::ServerError)
    ));
}

#[test]
fn gate_valid_session_reaches_handler() {
    match gate_begin(Some("lang=en; session_id=abc")) {
        GateStep::ReadSession(id) => assert_eq!(id, "abc"),
        _ => panic!("cookie should be read"),
    }
    let s = match gate_after_session(Ok(Some(session("abc", "42", 100))), 100) {
        GateStep::ReadUser(s) => s,
        _ => panic!("session should be active"),
    };
    assert_eq!(s.user_id, "42");
    match gate_after_user(s, Ok(Some(user("42")))) {
        GateStep::Forward(auth) => {
            assert_eq!(auth.0.id, "42");
            assert_eq!(auth.0.email, "rick@example.com");
        }
        _ => panic!("request should be forwarded"),
    }
}

#[test]
fn gate_unknown_session_is_rejected() {
    match gate_begin(Some("session_id=unknown")) {
        GateStep::ReadSession(id) => assert_eq!(id, "unknown"),
        _ => panic!("cookie should be read"),
    }
    assert!(is_unauthenticated(&gate_after_session(Ok(None), 100)));
}

#[test]
fn callback_without_code_or_error_redirects() {
    let step = callback_begin(OAuthQuery { code: None, error: None });
    assert!(matches!(step, CallbackStep::RedirectToLogin));
}

#[test]
fn callback_with_provider_error_redirects() {
    let step = callback_begin(OAuthQuery { code: Some("c".to_string()), error: Some("access_denied".to_string()) });
    assert!(matches!(step, CallbackStep::RedirectToLogin));
}

#[test]
fn callback_with_code_exchanges_it() {
    match callback_begin(OAuthQuery { code: Some("the-code".to_string()), error: None }) {
        CallbackStep::ExchangeCode(c) => assert_eq!(c, "the-code"),
        _ => panic!("code should be exchanged"),
    }
}

#[test]
fn token_failure_redirects() {
    assert!(matches!(callback_after_token(None), CallbackStep::RedirectToLogin));
}

#[test]
fn token_gives_authorization_header() {
    let t = TokenResponse {
        access_token: "tok".to_string(),
        token_type: "Bearer".to_string(),
        expires_in: 604800,
        refresh_token: "ref".to_string(),
        scope: "identify email".to_string(),
    };
    match callback_after_token(Some(t)) {
        CallbackStep::FetchProfile(h) => assert_eq!(h, "Bearer tok"),
        _ => panic!("profile should be fetched"),
    }
}

#[test]
fn profile_id_keys_the_user() {
    let p: serde_json::Value =
        serde_json::from_str("{\"id\": \"80351110224678912\", \"username\": \"rick\", \"extra\": [1, 2]}").unwrap();
    match callback_after_profile(Some(p)) {
        CallbackStep::UpsertUser(k) => assert_eq!(k, "80351110224678912"),
        _ => panic!("user should be stored"),
    }
}

#[test]
fn profile_without_string_id_redirects() {
    let numeric: serde_json::Value = serde_json::from_str("{\"id\": 42}").unwrap();
    let missing: serde_json::Value = serde_json::from_str("{\"username\": \"rick\"}").unwrap();
    assert!(matches!(callback_after_profile(Some(numeric)), CallbackStep::RedirectToLogin));
    assert!(matches!(callback_after_profile(Some(missing)), CallbackStep::RedirectToLogin));
    assert!(matches!(callback_after_profile(None), CallbackStep::RedirectToLogin));
    assert!(matches!(upsert_step(None), CallbackStep::RedirectToLogin));
}

#[test]
fn user_store_failure_does_not_stop_login() {
    match callback_after_upsert(Err(store_error()), "42".to_string(), "10.1.2.3".to_string(), 1_700_000_000) {
        CallbackStep::CreateSession(s) => {
            assert_eq!(s.user_id, "42");
            assert_eq!(s.ipv4, "10.1.2.3");
            assert_eq!(s.expires_at, 1_700_000_000 + 604800);
        }
        _ => panic!("session should be created"),
    }
    assert!(matches!(
        callback_after_upsert(Ok(()), "42".to_string(), "ip".to_string(), u64::MAX),
        CallbackStep::ReportError(_)
    ));
}

#[test]
fn session_store_failure_is_reported_without_cookie() {
    match callback_after_session(session("s", "42", 700), Err(store_error()), 100) {
        CallbackStep::ReportError(b) => {
            assert_eq!(b.message, "Couldn't create the session in the database");
            assert_eq!(b.errors, vec!["storage error".to_string()]);
        }
        _ => panic!("failure should be reported"),
    }
}

#[test]
fn full_login_sets_week_long_cookie() {
    let now: u64 = 1_700_000_000;
    let key = match upsert_step(Some("42".to_string())) {
        CallbackStep::UpsertUser(k) => k,
        _ => panic!("user should be stored"),
    };
    let s = match callback_after_upsert(Ok(()), key, "10.0.0.9".to_string(), now) {
        CallbackStep::CreateSession(s) => s,
        _ => panic!("session should be created"),
    };
    assert_eq!(s.expires_at, now + 604800);
    let id = s.id.clone();
    match callback_after_session(s, Ok(()), now) {
        CallbackStep::IssueCookie(c, b) => {
            assert_eq!(c, format!("session_id={}; Path=/; HttpOnly; Max-Age=604800", id));
            assert_eq!(b.data.id, id);
            assert_eq!(b.message, "Session created successfully");
            assert!(b.errors.is_empty());
        }
        _ => panic!("cookie should be issued"),
    }
}

#[test]
fn logout_without_session_succeeds() {
    assert_eq!(logout_begin(None), None);
    assert_eq!(logout_begin(Some("theme=dark")), None);
    let (body, cookie) = logout_reply(None);
    assert_eq!(body.message, "Session deleted successfully");
    assert!(body.errors.is_empty());
    assert_eq!(cookie, "session_id=; Path=/; HttpOnly; Max-Age=0");
}

#[test]
fn logout_twice_answers_the_same() {
    assert_eq!(logout_begin(Some("session_id=abc")), Some("abc".to_string()));
    let (first, c1) = logout_reply(Some(Ok(Some(session("abc", "42", 9)))));
    let (second, c2) = logout_reply(Some(Ok(None)));
    let (third, c3) = logout_reply(Some(Err(store_error())));
    assert_eq!(first.message, second.message);
    assert_eq!(second.message, third.message);
    assert_eq!(c1, c2);
    assert_eq!(c2, c3);
}

#[test]
fn login_url() {
    assert_eq!(
        authorize_url("123", "http://localhost/cb"),
        "https://discord.com/api/oauth2/authorize?client_id=123&response_type=code&redirect_uri=http://localhost/cb&scope=identify+email"
    );
}

#[test]
fn code_exchange_form() {
    let f = token_form("id", "SECRET-REDACTED", "c0de", "http://r");
    let pairs: Vec<(&str, &str)> = f.iter().map(|(k, v)| (k.as_str(), v.as_str())).collect();
    assert_eq!(
        pairs,
        vec![
            ("client_id", "id"),
            ("client_secret", "SECRET-REDACTED"),
            ("grant_type", "authorization_code"),
            ("code", "c0de"),
            ("redirect_uri", "http://r"),
        ]
    );
}

#[test]
fn error_message_text() {
    assert_eq!(Error::Custom("boom".to_string()).message(), "boom");
    assert_eq!(Error::Surrealdb("db down".to_string()).message(), "db down");
}
