//! The login flow: the provider's authorization URL, the code exchange, the
//! steps of the OAuth callback, and logout.
//!
//! The callback runs as steps: the host performs each step's network or store
//! work and hands the next step what came back. Any failure before the
//! session is stored sends the browser back to `/login`; a failure to store
//! the session is reported, and no cookie is set.
use vstd::prelude::*;
use vstd::string::*;
use crate::cookie::{clear_cookie_header, get_session_id, session_cookie_header, set_cookie_text};
use crate::gate::header_session;
use crate::models::{ApiResponse, OAuthQuery, Session, StoreError, TokenResponse};
use crate::SESSION_LIFETIME_SECS;
use crate::session::{create_session, expiry_after, is_ulid_text, seconds_left, stored};

verus! {

#[verifier::external_type_specification]
#[verifier::external_body]
pub struct ExValue(serde_json::Value);

/// The member `key` of a JSON value, as `serde_json::Value::get` finds it.
pub uninterp spec fn member_of(v: serde_json::Value, key: Seq<char>) -> Option<serde_json::Value>;

/// The text of a JSON value, as `serde_json::Value::as_str` reads it.
pub uninterp spec fn text_of(v: serde_json::Value) -> Option<Seq<char>>;

/// Relies on `serde_json::Value::get`: the member `key` of an object, or
/// `None` when `v` is not an object or has no such member; it depends on
/// `v` and `key` alone.
#[verifier::external_body]
fn json_member<'a>(v: &'a serde_json::Value, key: &str) -> (r: Option<&'a serde_json::Value>)
    ensures
        r is None <==> member_of(*v, key@) is None,
        r matches Some(m) ==> member_of(*v, key@) == Some(*m),
{
    v.get(key)
}

/// Relies on `serde_json::Value::as_str`: the text of a JSON string, or
/// `None` for any other kind of value; it depends on `v` alone.
#[verifier::external_body]
fn json_text(v: &serde_json::Value) -> (r: Option<String>)
    ensures
        r is None <==> text_of(*v) is None,
        r matches Some(t) ==> text_of(*v) == Some(t@),
{
    v.as_str().map(|s| s.to_owned())
}

/// The user key of a profile document: its `id` member, when that is a string.
pub open spec fn profile_key(profile: serde_json::Value) -> Option<Seq<char>> {
    match member_of(profile, "id"@) {
        Some(m) => text_of(m),
        None => None,
    }
}

/// Reads the user key of a profile document.
fn profile_id(profile: &serde_json::Value) -> (r: Option<String>)
    ensures
        r is None <==> profile_key(*profile) is None,
        r matches Some(k) ==> profile_key(*profile) == Some(k@),
{
    match json_member(profile, "id") {
        Some(m) => json_text(m),
        None => None,
    }
}

/// The provider's authorization URL, asking for a code and the scopes
/// `identify` and `email`, with the registered redirect URI.
pub fn authorize_url(client_id: &str, redirect_uri: &str) -> (r: String)
    ensures
        r@ == "https://discord.com/api/oauth2/authorize?client_id="@ + client_id@
            + "&response_type=code&redirect_uri="@ + redirect_uri@ + "&scope=identify+email"@,
{
    let mut r = String::from_str("https://discord.com/api/oauth2/authorize?client_id=");
    r.append(client_id);
    r.append("&response_type=code&redirect_uri=");
    r.append(redirect_uri);
    r.append("&scope=identify+email");
    r
}

/// One field of a form.
fn form_field(name: &str, value: &str) -> (r: (String, String))
    ensures
        r.0@ == name@,
        r.1@ == value@,
{
    (String::from_str(name), String::from_str(value))
}

/// The form posted to the provider's token endpoint to exchange `code`.
pub fn token_form(client_id: &str, client_secret: &str, code: &str, redirect_uri: &str) -> (r: Vec<(String, String)>)
    ensures
        r@.len() == 5,
        r@[0].0@ == "client_id"@ && r@[0].1@ == client_id@,
        r@[1].0@ == "client_secret"@ && r@[1].1@ == client_secret@,
        r@[2].0@ == "grant_type"@ && r@[2].1@ == "authorization_code"@,
        r@[3].0@ == "code"@ && r@[3].1@ == code@,
        r@[4].0@ == "redirect_uri"@ && r@[4].1@ == redirect_uri@,
{
    let mut r: Vec<(String, String)> = Vec::new();
    r.push(form_field("client_id", client_id));
    r.push(form_field("client_secret", client_secret));
    r.push(form_field("grant_type", "authorization_code"));
    r.push(form_field("code", code));
    r.push(form_field("redirect_uri", redirect_uri));
    r
}

/// What the callback asks the host to do next.
pub enum CallbackStep {
    /// Abort the login: redirect the browser to `/login`.
    RedirectToLogin,
    /// Exchange this authorization code for a token.
    ExchangeCode(String),
    /// Fetch the profile with this `Authorization` header value.
    FetchProfile(String),
    /// Store the profile document under this user key in `users`.
    UpsertUser(String),
    /// Store this session in `sessions`.
    CreateSession(Session),
    /// Answer with this error envelope; no cookie is set.
    ReportError(ApiResponse<()>),
    /// Answer with this `Set-Cookie` value and this envelope.
    IssueCookie(String, ApiResponse<Session>),
}

/// First step: the callback's query. A provider error, or no code, aborts.
pub fn callback_begin(query: OAuthQuery) -> (r: CallbackStep)
    ensures
        (query.error is Some || query.code is None) ==> r == CallbackStep::RedirectToLogin,
        (query.error is None && query.code is Some) ==> r == CallbackStep::ExchangeCode(query.code->Some_0),
{
    if query.error.is_some() {
        return CallbackStep::RedirectToLogin;
    }
    match query.code {
        None => CallbackStep::RedirectToLogin,
        Some(code) => CallbackStep::ExchangeCode(code),
    }
}

/// Second step: the decoded token, or `None` when the exchange or its
/// decoding failed.
pub fn callback_after_token(token: Option<TokenResponse>) -> (r: CallbackStep)
    ensures
        token is None ==> r == CallbackStep::RedirectToLogin,
        token matches Some(t) ==> (r matches CallbackStep::FetchProfile(h)
            && h@ == t.token_type@ + seq![' '] + t.access_token@),
{
    match token {
        None => CallbackStep::RedirectToLogin,
        Some(t) => {
            let mut h = t.token_type;
            h.append(" ");
            proof {
                reveal_strlit(" ");
            }
            h.append(t.access_token.as_str());
            CallbackStep::FetchProfile(h)
        },
    }
}

/// Third step, once the user key is read from the profile: `None` when the
/// profile had no string `id`.
pub fn upsert_step(user_key: Option<String>) -> (r: CallbackStep)
    ensures
        user_key is None ==> r == CallbackStep::RedirectToLogin,
        user_key matches Some(k) ==> r == CallbackStep::UpsertUser(k),
{
    match user_key {
        None => CallbackStep::RedirectToLogin,
        Some(k) => CallbackStep::UpsertUser(k),
    }
}

/// Third step: the profile document, or `None` when fetching or decoding it
/// failed. The user key is the document's `id` member.
pub fn callback_after_profile(profile: Option<serde_json::Value>) -> (r: CallbackStep)
    ensures
        profile is None ==> r == CallbackStep::RedirectToLogin,
        profile matches Some(p) ==> match profile_key(p) {
            Some(k) => r matches CallbackStep::UpsertUser(u) && u@ == k,
            None => r == CallbackStep::RedirectToLogin,
        },
{
    match profile {
        None => CallbackStep::RedirectToLogin,
        Some(p) => upsert_step(profile_id(&p)),
    }
}

/// Fourth step: the user record was written, or failed to be; either way the
/// login goes on and a session for `user_key` from `ipv4` is opened at `now`.
pub fn callback_after_upsert(_upserted: Result<(), StoreError>, user_key: String, ipv4: String, now: u64) -> (r: CallbackStep)
    ensures
        expiry_after(now) <= u64::MAX ==> (r matches CallbackStep::CreateSession(s)
            && is_ulid_text(s.id@) && s.user_id == user_key && s.ipv4 == ipv4
            && s.expires_at == expiry_after(now)),
        expiry_after(now) > u64::MAX ==> (r matches CallbackStep::ReportError(b)
            && b.message@ == "Couldn't create the session"@
            && b.errors@.len() == 1 && b.errors@[0]@ == "clock out of range"@),
{
    match create_session(user_key, ipv4, now) {
        Some(s) => CallbackStep::CreateSession(s),
        None => CallbackStep::ReportError(ApiResponse {
            data: (),
            message: String::from_str("Couldn't create the session"),
            errors: vec![String::from_str("clock out of range")],
        }),
    }
}

/// Last step: whether session `s` was stored. If it was, the cookie is set
/// for the seconds that `s` has left at `now`, and `s` is the payload; if not,
/// a generic error is reported and no cookie is set.
pub fn callback_after_session(s: Session, persisted: Result<(), StoreError>, now: u64) -> (r: CallbackStep)
    ensures
        persisted is Err ==> (r matches CallbackStep::ReportError(b)
            && b.message@ == "Couldn't create the session in the database"@
            && b.errors@.len() == 1 && b.errors@[0]@ == "storage error"@),
        persisted is Ok ==> (r matches CallbackStep::IssueCookie(c, b)
            && c@ == set_cookie_text(s.id@, if now >= s.expires_at { 0 } else { (s.expires_at - now) as nat })
            && b.data == s
            && b.message@ == "Session created successfully"@
            && b.errors@.len() == 0),
{
    match persisted {
        Err(_) => CallbackStep::ReportError(ApiResponse {
            data: (),
            message: String::from_str("Couldn't create the session in the database"),
            errors: vec![String::from_str("storage error")],
        }),
        Ok(()) => {
            let left = seconds_left(&s, now);
            let cookie = session_cookie_header(s.id.as_str(), left);
            CallbackStep::IssueCookie(cookie, ApiResponse {
                data: s,
                message: String::from_str("Session created successfully"),
                errors: Vec::new(),
            })
        },
    }
}

/// A login that completes at `now` stores exactly one new session, under an
/// identifier not yet in `sessions`, and its cookie lasts the whole lifetime.
pub proof fn lemma_login_adds_one_session(sessions: Map<Seq<char>, Session>, s: Session, now: u64)
    requires
        sessions.dom().finite(),
        !sessions.contains_key(s.id@),
        s.expires_at == expiry_after(now),
    ensures
        sessions.insert(s.id@, s).dom() == sessions.dom().insert(s.id@),
        sessions.insert(s.id@, s).dom().len() == sessions.dom().len() + 1,
        stored(sessions.insert(s.id@, s), s.id@) == Some(s),
        (if now >= s.expires_at { 0 } else { (s.expires_at - now) as nat }) == SESSION_LIFETIME_SECS,
{
    assert(sessions.insert(s.id@, s).dom() =~= sessions.dom().insert(s.id@));
}

/// The session that a logout request asks to delete, from its `Cookie` header.
pub fn logout_begin(cookie_header: Option<&str>) -> (r: Option<String>)
    ensures
        header_session(match cookie_header { Some(h) => Some(h@), None => None })
            == match r { Some(v) => Some(v@), None => None },
{
    match cookie_header {
        None => None,
        Some(h) => get_session_id(h),
    }
}

/// The answer to a logout: success and a cookie that clears the session,
/// whatever the deletion found or failed to do.
pub fn logout_reply(_deleted: Option<Result<Option<Session>, StoreError>>) -> (r: (ApiResponse<()>, String))
    ensures
        r.0.message@ == "Session deleted successfully"@,
        r.0.errors@.len() == 0,
        r.1@ == set_cookie_text(Seq::empty(), 0),
{
    (ApiResponse { data: (), message: String::from_str("Session deleted successfully"), errors: Vec::new() },
        clear_cookie_header())
}

/// The sessions collection after deleting `id`.
pub open spec fn destroy_in(sessions: Map<Seq<char>, Session>, id: Seq<char>) -> Map<Seq<char>, Session> {
    sessions.remove(id)
}

/// Deleting a session twice leaves the store as deleting it once, with no
/// session under that identifier.
pub proof fn lemma_destroy_idempotent(sessions: Map<Seq<char>, Session>, id: Seq<char>)
    ensures
        destroy_in(destroy_in(sessions, id), id) == destroy_in(sessions, id),
        stored(destroy_in(sessions, id), id) is None,
{
    assert(destroy_in(destroy_in(sessions, id), id) =~= destroy_in(sessions, id));
}

} // verus!
