//! The records that the login flow reads, stores and answers with.
use vstd::prelude::*;

verus! {

/// Names of the store's collections.
pub const USERS: &'static str = "users";
pub const SESSIONS: &'static str = "sessions";

/// The JSON envelope of every answer: a payload, a message and error strings.
pub struct ApiResponse<T> {
    pub data: T,
    pub message: String,
    pub errors: Vec<String>,
}

/// The query of the OAuth callback.
pub struct OAuthQuery {
    pub code: Option<String>,
    pub error: Option<String>,
}

/// What the identity provider answers to a code exchange.
pub struct TokenResponse {
    pub access_token: String,
    pub token_type: String,
    pub expires_in: u32,
    pub refresh_token: String,
    pub scope: String,
}

/// A user as the identity provider describes it; `id` is the provider's
/// identifier, which also keys the record in the `users` collection.
pub struct User {
    pub id: String,
    pub global_name: Option<String>,
    pub username: String,
    pub avatar: Option<String>,
    pub discriminator: String,
    pub email: String,
    pub locale: String,
    pub mfa_enabled: bool,
    pub banner_color: Option<String>,
    pub accent_color: Option<u64>,
    pub verified: bool,
    pub flags: u64,
    pub premium_type: u64,
    pub public_flags: u64,
}

/// A server-side session: its identifier (the key in `sessions`), the key of
/// its user in `users`, the client address it was opened from, and the Unix
/// second after which it is no longer valid.
pub struct Session {
    pub id: String,
    pub user_id: String,
    pub ipv4: String,
    pub expires_at: u64,
}

impl Clone for Session {
    fn clone(&self) -> (r: Session)
        ensures
            r == *self,
    {
        Session {
            id: self.id.clone(),
            user_id: self.user_id.clone(),
            ipv4: self.ipv4.clone(),
            expires_at: self.expires_at,
        }
    }
}

/// The user that a request was authenticated as; it lives for one request.
pub struct AuthUser(pub User);

/// The failures of the service, each with the text that describes it.
pub enum Error {
    Surrealdb(String),
    SystemTime(String),
    Reqwest(String),
    SerdeJson(String),
    Anyhow(String),
    Custom(String),
}

impl Error {
    /// The text of the failure, as it is sent to a client.
    pub fn message(&self) -> (r: String)
        ensures
            r@ == match self {
                Error::Surrealdb(m) => m@,
                Error::SystemTime(m) => m@,
                Error::Reqwest(m) => m@,
                Error::SerdeJson(m) => m@,
                Error::Anyhow(m) => m@,
                Error::Custom(m) => m@,
            },
    {
        match self {
            Error::Surrealdb(m) => m.clone(),
            Error::SystemTime(m) => m.clone(),
            Error::Reqwest(m) => m.clone(),
            Error::SerdeJson(m) => m.clone(),
            Error::Anyhow(m) => m.clone(),
            Error::Custom(m) => m.clone(),
        }
    }
}

/// A failure of the session and user store, with its description.
pub struct StoreError {
    pub message: String,
}

} // verus!
