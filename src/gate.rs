//! The guard in front of protected endpoints, as steps: the host reads the
//! store between them and hands each step what it read.
//!
//! Missing cookie, unknown session, expired session and orphaned session all
//! give the same rejection, so a client cannot tell them apart; a store
//! failure is a server error, not a rejection of the credential.
use vstd::prelude::*;
use crate::cookie::{get_session_id, session_cookie};
use crate::models::{AuthUser, Session, StoreError, User};
use crate::session::{check_session, check_spec, resolve_user, resolve_user_spec, Resolution, SessionCheck};

verus! {

/// Why a request was turned away.
pub enum Rejection {
    /// No valid session: the client is sent to log in.
    Unauthenticated,
    /// The store failed while the session was resolved.
    ServerError,
}

/// What the guard asks the host to do next.
pub enum GateStep {
    /// Read this session identifier from `sessions`.
    ReadSession(String),
    /// Read the user that this active session refers to.
    ReadUser(Session),
    /// Hand the request to the protected handler as this user.
    Forward(AuthUser),
    /// Answer the request with this rejection.
    Reject(Rejection),
}

/// The single answer given for every kind of missing or invalid session.
pub open spec fn unauthenticated() -> GateStep {
    GateStep::Reject(Rejection::Unauthenticated)
}

/// The session identifier carried by an optional `Cookie` header.
pub open spec fn header_session(header: Option<Seq<char>>) -> Option<Seq<char>> {
    match header {
        Some(h) => session_cookie(h),
        None => None,
    }
}

/// First step: take the session identifier from the `Cookie` header.
pub fn gate_begin(cookie_header: Option<&str>) -> (r: GateStep)
    ensures
        header_session(match cookie_header { Some(h) => Some(h@), None => None }) is None
            ==> r == unauthenticated(),
        header_session(match cookie_header { Some(h) => Some(h@), None => None }) matches Some(id)
            ==> (r matches GateStep::ReadSession(s) && s@ == id),
{
    match cookie_header {
        None => GateStep::Reject(Rejection::Unauthenticated),
        Some(h) => match get_session_id(h) {
            None => GateStep::Reject(Rejection::Unauthenticated),
            Some(id) => GateStep::ReadSession(id),
        },
    }
}

pub open spec fn after_session_spec(read: Result<Option<Session>, StoreError>, now: u64) -> GateStep {
    match read {
        Err(_) => GateStep::Reject(Rejection::ServerError),
        Ok(found) => match check_spec(found, now) {
            SessionCheck::Active(s) => GateStep::ReadUser(s),
            _ => unauthenticated(),
        },
    }
}

/// Second step: what the store returned for the session identifier, at `now`.
pub fn gate_after_session(read: Result<Option<Session>, StoreError>, now: u64) -> (r: GateStep)
    ensures
        r == after_session_spec(read, now),
{
    match read {
        Err(_) => GateStep::Reject(Rejection::ServerError),
        Ok(found) => match check_session(found, now) {
            SessionCheck::Active(s) => GateStep::ReadUser(s),
            _ => GateStep::Reject(Rejection::Unauthenticated),
        },
    }
}

pub open spec fn after_user_spec(s: Session, read: Result<Option<User>, StoreError>) -> GateStep {
    match read {
        Err(_) => GateStep::Reject(Rejection::ServerError),
        Ok(user) => match resolve_user_spec(s, user) {
            Resolution::Found(u, _) => GateStep::Forward(AuthUser(u)),
            _ => unauthenticated(),
        },
    }
}

/// Last step: what the store returned for the user of active session `s`.
pub fn gate_after_user(s: Session, read: Result<Option<User>, StoreError>) -> (r: GateStep)
    ensures
        r == after_user_spec(s, read),
{
    match read {
        Err(_) => GateStep::Reject(Rejection::ServerError),
        Ok(user) => match resolve_user(s, user) {
            Resolution::Found(u, _) => GateStep::Forward(AuthUser(u)),
            _ => GateStep::Reject(Rejection::Unauthenticated),
        },
    }
}

/// The guard gives one and the same rejection for a request without a session
/// cookie, for an identifier the store does not know, for an expired session
/// and for a session whose user is gone.
pub proof fn lemma_uniform_rejection(expired: Session, live: Session, now: u64)
    requires
        now > expired.expires_at,
    ensures
        header_session(None) is None,
        after_session_spec(Ok(None), now) == unauthenticated(),
        after_session_spec(Ok(Some(expired)), now) == unauthenticated(),
        after_user_spec(live, Ok(None)) == unauthenticated(),
{
}

} // verus!
