//! The provider: where its OAuth endpoints are and how it wants to be asked.

use vstd::prelude::*;

verus! {

/// The address to which the provider sends the user back where the
/// application names no other.
pub const OAUTH_DEFAULT_REDIRECT_URI: &'static str = "https://oauth.vk.com/blank.html";

/// The OAuth provider of the API.
#[derive(Debug, PartialEq, Eq, Clone, Copy, Structural)]
pub struct Auth;

impl Auth {
    /// The endpoint at which the user grants access.
    pub fn auth_uri() -> (uri: &'static str)
        ensures
            uri@ == "https://oauth.vk.com/authorize"@,
    {
        "https://oauth.vk.com/authorize"
    }

    /// The endpoint at which an authorization code is exchanged for a token.
    pub fn token_uri() -> (uri: &'static str)
        ensures
            uri@ == "https://oauth.vk.com/access_token"@,
    {
        "https://oauth.vk.com/access_token"
    }

    /// Whether the provider wants the client's credentials in the body of
    /// the request. This one does.
    pub fn credentials_in_body() -> (in_body: bool)
        ensures
            in_body,
    {
        true
    }
}

} // verus!
