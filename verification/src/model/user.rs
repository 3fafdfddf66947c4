//! User models: sessions, profiles and the authentication requests.

use crate::text::{contains_str, owned, string_views};
use vstd::prelude::*;

verus! {

/// The session returned after a successful login: user details and the
/// authentication tokens.
#[derive(Debug, Clone)]
pub struct UserSession {
    /// Permanent user ID.
    pub user_id: String,
    /// User's real name.
    pub user_name: String,
    /// Short form of the user's name.
    pub user_shortname: String,
    /// URL of the user's avatar, if any.
    pub avatar_url: Option<String>,
    /// Registered role of the user.
    pub user_type: String,
    /// E-mail address.
    pub email: String,
    /// Broker ID.
    pub broker: String,
    /// Further user data.
    pub meta: UserMeta,
    /// Margin products enabled for the user.
    pub products: Vec<String>,
    /// Order types enabled for the user.
    pub order_types: Vec<String>,
    /// Exchanges enabled for the user.
    pub exchanges: Vec<String>,
    /// API key the login was for.
    pub api_key: String,
    /// Token sent with every later request.
    pub access_token: String,
    /// Token for public session validation.
    pub public_token: String,
    /// Token for long-standing read access, if granted.
    pub refresh_token: Option<String>,
    /// Last login time, `yyyy-mm-dd hh:mm:ss`.
    pub login_time: String,
}

/// Tokens returned by a token renewal.
#[derive(Debug, Clone)]
pub struct UserSessionTokens {
    /// User ID.
    pub user_id: String,
    /// New access token.
    pub access_token: String,
    /// Refresh token for later renewals.
    pub refresh_token: String,
}

/// User profile without tokens.
#[derive(Debug, Clone)]
pub struct UserProfile {
    /// Permanent user ID.
    pub user_id: String,
    /// User's real name.
    pub user_name: String,
    /// Short form of the user's name.
    pub user_shortname: String,
    /// URL of the user's avatar, if any.
    pub avatar_url: Option<String>,
    /// Registered role of the user.
    pub user_type: String,
    /// E-mail address.
    pub email: String,
    /// Broker ID.
    pub broker: String,
    /// Further user data.
    pub meta: UserMeta,
    /// Margin products enabled for the user.
    pub products: Vec<String>,
    /// Order types enabled for the user.
    pub order_types: Vec<String>,
    /// Exchanges enabled for the user.
    pub exchanges: Vec<String>,
}

/// Full user profile with bank, phone and identity details.
#[derive(Debug, Clone)]
pub struct FullUserProfile {
    /// Permanent user ID.
    pub user_id: String,
    /// User's real name.
    pub user_name: String,
    /// URL of the user's avatar, if any.
    pub avatar_url: Option<String>,
    /// Registered role of the user.
    pub user_type: String,
    /// E-mail address.
    pub email: String,
    /// Phone number.
    pub phone: String,
    /// Broker ID.
    pub broker: String,
    /// Two-factor authentication type.
    pub two_fa_type: String,
    /// Linked bank accounts.
    pub banks: Vec<Bank>,
    /// Depository participant IDs.
    pub dp_ids: Vec<String>,
    /// Margin products enabled for the user.
    pub products: Vec<String>,
    /// Order types enabled for the user.
    pub order_types: Vec<String>,
    /// Exchanges enabled for the user.
    pub exchanges: Vec<String>,
    /// PAN number.
    pub pan: String,
    /// Short form of the user's name.
    pub user_shortname: String,
    /// User tags.
    pub tags: Vec<String>,
    /// When the password was last changed.
    pub password_timestamp: String,
    /// When two-factor authentication was set up.
    pub two_fa_timestamp: String,
    /// Further user data.
    pub meta: FullUserMeta,
}

/// A bank account.
#[derive(Debug, Clone)]
pub struct Bank {
    /// Bank name.
    pub name: String,
    /// Branch name.
    pub branch: String,
    /// Account number.
    pub account: String,
}

/// Further user data.
#[derive(Debug, Clone)]
pub struct UserMeta {
    /// Demat consent: `"empty"`, `"consent"` or `"physical"`.
    pub demat_consent: String,
}

/// Further user data of the full profile.
#[derive(Debug, Clone)]
pub struct FullUserMeta {
    /// Power of attorney (demat consent) status.
    pub demat_consent: String,
    /// Silo information.
    pub silo: String,
    /// Account blocks.
    pub account_blocks: Vec<String>,
}

/// Token exchange request.
#[derive(Debug, Clone)]
pub struct TokenRequest {
    /// Public API key.
    pub api_key: String,
    /// One-time token from the login flow.
    pub request_token: String,
    /// SHA-256 of API key, request token and API secret.
    pub checksum: String,
}

/// Logout request.
#[derive(Debug, Clone)]
pub struct LogoutRequest {
    /// API key.
    pub api_key: String,
    /// Access token to invalidate.
    pub access_token: String,
}

/// Refresh token request.
#[derive(Debug, Clone)]
pub struct RefreshTokenRequest {
    /// API key.
    pub api_key: String,
    /// Refresh token.
    pub refresh_token: String,
    /// SHA-256 of API key, refresh token and API secret.
    pub checksum: String,
}

/// The `Authorization` header value of a session: `token <api_key>:<access_token>`.
pub open spec fn authorization_value(api_key: Seq<char>, access_token: Seq<char>) -> Seq<char> {
    "token "@ + api_key + ":"@ + access_token
}

/// The `Authorization` header value for a key and a token.
pub fn authorization_header_for(api_key: &str, access_token: &str) -> (s: String)
    ensures
        s@ == authorization_value(api_key@, access_token@),
{
    let mut s = owned("token ");
    s.append(api_key);
    s.append(":");
    s.append(access_token);
    s
}

impl UserSession {
    /// The `Authorization` header value of this session.
    pub fn authorization_header(&self) -> (s: String)
        ensures
            s@ == authorization_value(self.api_key@, self.access_token@),
    {
        authorization_header_for(self.api_key.as_str(), self.access_token.as_str())
    }

    /// Whether the user may trade on `exchange`.
    pub fn has_exchange(&self, exchange: &str) -> (b: bool)
        ensures
            b == string_views(self.exchanges@).contains(exchange@),
    {
        contains_str(&self.exchanges, exchange)
    }

    /// Whether the user may use margin product `product`.
    pub fn has_product(&self, product: &str) -> (b: bool)
        ensures
            b == string_views(self.products@).contains(product@),
    {
        contains_str(&self.products, product)
    }

    /// Whether the user may place orders of type `order_type`.
    pub fn has_order_type(&self, order_type: &str) -> (b: bool)
        ensures
            b == string_views(self.order_types@).contains(order_type@),
    {
        contains_str(&self.order_types, order_type)
    }
}

impl UserProfile {
    /// Whether the user may trade on `exchange`.
    pub fn has_exchange(&self, exchange: &str) -> (b: bool)
        ensures
            b == string_views(self.exchanges@).contains(exchange@),
    {
        contains_str(&self.exchanges, exchange)
    }

    /// Whether the user may use margin product `product`.
    pub fn has_product(&self, product: &str) -> (b: bool)
        ensures
            b == string_views(self.products@).contains(product@),
    {
        contains_str(&self.products, product)
    }

    /// Whether the user may place orders of type `order_type`.
    pub fn has_order_type(&self, order_type: &str) -> (b: bool)
        ensures
            b == string_views(self.order_types@).contains(order_type@),
    {
        contains_str(&self.order_types, order_type)
    }
}

impl FullUserProfile {
    /// Whether the user may trade on `exchange`.
    pub fn has_exchange(&self, exchange: &str) -> (b: bool)
        ensures
            b == string_views(self.exchanges@).contains(exchange@),
    {
        contains_str(&self.exchanges, exchange)
    }

    /// Whether the user may use margin product `product`.
    pub fn has_product(&self, product: &str) -> (b: bool)
        ensures
            b == string_views(self.products@).contains(product@),
    {
        contains_str(&self.products, product)
    }

    /// Whether the user may place orders of type `order_type`.
    pub fn has_order_type(&self, order_type: &str) -> (b: bool)
        ensures
            b == string_views(self.order_types@).contains(order_type@),
    {
        contains_str(&self.order_types, order_type)
    }
}

} // verus!
