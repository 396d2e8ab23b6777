//! Session-based authentication: reading the session cookie, the lifecycle
//! of server-side sessions, the guard in front of protected endpoints and the
//! steps of the OAuth login callback.
use vstd::prelude::*;

pub mod cookie;
pub mod models;
pub mod session;
pub mod gate;
pub mod oauth;

verus! {

/// Lifetime of a session, in seconds: seven days.
pub const SESSION_LIFETIME_SECS: u64 = 604800;

} // verus!
