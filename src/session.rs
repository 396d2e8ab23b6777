//! The lifecycle of a session: the clock, fresh identifiers, creation with a
//! fixed seven-day expiry, and resolution of an identifier to its user.
//!
//! Expired sessions are only refused when they are read; nothing here removes
//! them from the store, so stale records accumulate until deleted by logout.
use vstd::prelude::*;
use crate::models::{Session, User};
use crate::SESSION_LIFETIME_SECS;

verus! {

#[verifier::external_type_specification]
#[verifier::external_body]
pub struct ExSystemTime(std::time::SystemTime);

/// Relies on `std::time::SystemTime::now`: the wall-clock time now.
#[verifier::external_body]
fn system_now() -> std::time::SystemTime {
    std::time::SystemTime::now()
}

/// Relies on `std::time::SystemTime::duration_since(UNIX_EPOCH)`: the time
/// from the epoch to `t`, or `None` when `t` is earlier.
#[verifier::external_body]
fn since_epoch(t: &std::time::SystemTime) -> Option<std::time::Duration> {
    t.duration_since(std::time::UNIX_EPOCH).ok()
}

/// Relies on `std::time::Duration::as_secs`: the whole seconds of `d`.
#[verifier::external_body]
fn whole_seconds(d: &std::time::Duration) -> u64 {
    d.as_secs()
}

/// The current Unix time in seconds, or `None` when the clock reads a time
/// before the epoch.
pub fn get_current_timestamp() -> Option<u64> {
    let t = system_now();
    match since_epoch(&t) {
        Some(d) => Some(whole_seconds(&d)),
        None => None,
    }
}

/// A character of Crockford's base-32 alphabet, in which ULIDs are written.
pub open spec fn is_ulid_char(c: char) -> bool {
    ('0' <= c && c <= '9') || ('A' <= c && c <= 'Z' && c != 'I' && c != 'L' && c != 'O' && c != 'U')
}

/// The text of a ULID: 26 characters of Crockford's base-32 alphabet.
pub open spec fn is_ulid_text(s: Seq<char>) -> bool {
    s.len() == 26 && forall|i: int| 0 <= i < s.len() ==> is_ulid_char(#[trigger] s[i])
}

/// Relies on surrealdb's `sql::Id::ulid` and `Id::to_raw`: a fresh ULID
/// (48 bits of time and 80 random bits) written as its 26 base-32 characters.
#[verifier::external_body]
fn new_session_id() -> (r: String)
    ensures
        is_ulid_text(r@),
{
    surrealdb::sql::Id::ulid().to_raw()
}

/// The instant at which a session opened at `now` expires.
pub open spec fn expiry_after(now: u64) -> int {
    now + SESSION_LIFETIME_SECS
}

/// The session `id` of user `user_id`, opened from `ipv4` at `now`; `None`
/// when its expiry would not fit in a `u64`.
pub fn new_session(id: String, user_id: String, ipv4: String, now: u64) -> (r: Option<Session>)
    ensures
        r is Some <==> expiry_after(now) <= u64::MAX,
        r matches Some(s) ==> s.id == id && s.user_id == user_id && s.ipv4 == ipv4
            && s.expires_at == expiry_after(now),
{
    if now > u64::MAX - SESSION_LIFETIME_SECS {
        None
    } else {
        Some(Session { id, user_id, ipv4, expires_at: now + SESSION_LIFETIME_SECS })
    }
}

/// Opens a session for `user_id` from `ipv4` at `now`, under a fresh ULID.
/// The caller persists it; it is not valid until stored.
pub fn create_session(user_id: String, ipv4: String, now: u64) -> (r: Option<Session>)
    ensures
        r is Some <==> expiry_after(now) <= u64::MAX,
        r matches Some(s) ==> is_ulid_text(s.id@) && s.user_id == user_id && s.ipv4 == ipv4
            && s.expires_at == expiry_after(now),
{
    let id = new_session_id();
    new_session(id, user_id, ipv4, now)
}

/// A session has expired once the clock is past its expiry.
pub open spec fn expired_at(s: Session, now: u64) -> bool {
    now > s.expires_at
}

/// Whether `s` has expired at `now`.
pub fn is_expired(s: &Session, now: u64) -> (r: bool)
    ensures
        r == expired_at(*s, now),
{
    now > s.expires_at
}

/// The seconds that `s` stays valid after `now`: zero once it has expired.
pub fn seconds_left(s: &Session, now: u64) -> (r: u64)
    ensures
        r == if now >= s.expires_at { 0 } else { s.expires_at - now },
{
    if now >= s.expires_at {
        0
    } else {
        s.expires_at - now
    }
}

/// What a session read says about a request.
pub enum SessionCheck {
    NotFound,
    Expired,
    Active(Session),
}

pub open spec fn check_spec(found: Option<Session>, now: u64) -> SessionCheck {
    match found {
        None => SessionCheck::NotFound,
        Some(s) => if expired_at(s, now) {
            SessionCheck::Expired
        } else {
            SessionCheck::Active(s)
        },
    }
}

/// Classifies what the store returned for a session identifier: absent,
/// expired at `now` (the record is left in place), or active.
pub fn check_session(found: Option<Session>, now: u64) -> (r: SessionCheck)
    ensures
        r == check_spec(found, now),
{
    match found {
        None => SessionCheck::NotFound,
        Some(s) => if is_expired(&s, now) {
            SessionCheck::Expired
        } else {
            SessionCheck::Active(s)
        },
    }
}

/// The outcome of resolving a session identifier.
pub enum Resolution {
    NotFound,
    Expired,
    Found(User, Session),
}

pub open spec fn resolve_user_spec(s: Session, user: Option<User>) -> Resolution {
    match user {
        Some(u) => Resolution::Found(u, s),
        None => Resolution::NotFound,
    }
}

/// Completes the resolution of an active session `s` with what the store
/// returned for its user: a missing user makes an orphaned session, which
/// counts as not found.
pub fn resolve_user(s: Session, user: Option<User>) -> (r: Resolution)
    ensures
        r == resolve_user_spec(s, user),
{
    match user {
        Some(u) => Resolution::Found(u, s),
        None => Resolution::NotFound,
    }
}

/// What a store, seen as a map from keys to records, holds under `key`.
pub open spec fn stored<V>(m: Map<Seq<char>, V>, key: Seq<char>) -> Option<V> {
    if m.contains_key(key) {
        Some(m[key])
    } else {
        None
    }
}

/// Resolution of session `id` at `now` against the `sessions` and `users`
/// collections, as `check_session` and then `resolve_user` perform it.
pub open spec fn resolve_in(
    sessions: Map<Seq<char>, Session>,
    users: Map<Seq<char>, User>,
    id: Seq<char>,
    now: u64,
) -> Resolution {
    match check_spec(stored(sessions, id), now) {
        SessionCheck::NotFound => Resolution::NotFound,
        SessionCheck::Expired => Resolution::Expired,
        SessionCheck::Active(s) => resolve_user_spec(s, stored(users, s.user_id@)),
    }
}

/// A stored session that has not expired resolves to the user it refers to,
/// with itself, and to the same answer at every instant up to its expiry.
pub proof fn lemma_active_session_resolves(
    sessions: Map<Seq<char>, Session>,
    users: Map<Seq<char>, User>,
    id: Seq<char>,
    now: u64,
    later: u64,
)
    requires
        sessions.contains_key(id),
        users.contains_key(sessions[id].user_id@),
        now <= sessions[id].expires_at,
        later <= sessions[id].expires_at,
    ensures
        resolve_in(sessions, users, id, now) == Resolution::Found(users[sessions[id].user_id@], sessions[id]),
        resolve_in(sessions, users, id, now) == resolve_in(sessions, users, id, later),
{
}

/// A stored session whose expiry has passed resolves to `Expired`, never to
/// a user, whatever the users collection holds.
pub proof fn lemma_expired_session_refused(
    sessions: Map<Seq<char>, Session>,
    users: Map<Seq<char>, User>,
    id: Seq<char>,
    now: u64,
)
    requires
        sessions.contains_key(id),
        now > sessions[id].expires_at,
    ensures
        resolve_in(sessions, users, id, now) == Resolution::Expired,
        !(resolve_in(sessions, users, id, now) is Found),
{
}

} // verus!
