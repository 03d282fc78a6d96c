//! Plain data carried through the flow.

use vstd::prelude::*;

verus! {

/// Static parameters of one flow: provider credentials and the loopback port
/// on which the redirect is expected. Read-only for the flow's lifetime.
#[derive(Debug, Clone)]
pub struct OAuthConfig {
    pub client_id: String,
    pub client_secret: String,
    pub redirect_port: u16,
}

/// The provider's token-endpoint reply. Only `access_token` is propagated
/// further by the flow.
#[derive(Debug, Clone)]
pub struct TokenResponse {
    pub access_token: String,
    pub token_type: String,
    pub expires_in: Option<i64>,
    pub scope: Option<String>,
}

/// The authenticated user's profile, as the provider reports it.
#[derive(Debug, Clone)]
pub struct IntercomUser {
    pub id: String,
    pub name: Option<String>,
    pub email: Option<String>,
    pub app: Option<IntercomApp>,
    pub avatar: Option<Avatar>,
}

/// The workspace the authenticated user belongs to.
#[derive(Debug, Clone)]
pub struct IntercomApp {
    pub id_code: String,
    pub name: String,
    pub created_at: i64,
}

/// The user's avatar image, if any.
#[derive(Debug, Clone)]
pub struct Avatar {
    pub image_url: Option<String>,
}

/// Final output of a successful flow: the access token together with the
/// profile fetched with it.
#[derive(Debug, Clone)]
pub struct AuthResult {
    pub access_token: String,
    pub user: IntercomUser,
}

} // verus!
