//! Data carried by the account sign-in flow. The flow itself — the local
//! redirect listener and the token exchange — is network I/O and lives with
//! the host; the records it stores and returns are defined here.

use vstd::prelude::*;

verus! {

/// Tokens returned by the authorization server.
pub struct OAuthTokens {
    pub access_token: String,
    pub refresh_token: Option<String>,
    pub expires_in: Option<i64>,
    pub token_type: Option<String>,
}

/// The signed-in account's profile.
pub struct GoogleUser {
    pub id: String,
    pub email: String,
    pub name: String,
    pub picture: Option<String>,
    pub verified_email: Option<bool>,
}

/// The outcome of a sign-in attempt.
pub struct OAuthResult {
    pub success: bool,
    pub user_info: Option<GoogleUser>,
    pub tokens: Option<OAuthTokens>,
    pub error: Option<String>,
}

/// The outcome of a token refresh.
pub struct OAuthRefreshResult {
    pub success: bool,
    pub tokens: Option<OAuthTokens>,
    pub error: Option<String>,
}

/// The outcome of signing out.
pub struct LogoutResult {
    pub success: bool,
}

/// The stored session: profile and tokens together.
pub struct UserData {
    pub user_info: GoogleUser,
    pub tokens: OAuthTokens,
}

/// The in-memory store of the current session, empty until a sign-in
/// completes.
pub struct OAuthStorage {
    pub tokens: Option<OAuthTokens>,
    pub user_info: Option<GoogleUser>,
}

impl OAuthStorage {
    /// A store with nobody signed in.
    pub fn new() -> (r: Self)
        ensures
            r.tokens is None,
            r.user_info is None,
    {
        OAuthStorage { tokens: None, user_info: None }
    }
}

} // verus!
