//! Data models of the KiteConnect API.

pub mod constants;
pub mod errors;
pub mod gtt;
pub mod mutualfunds;
pub mod orders;
pub mod portfolio;
pub mod response;
pub mod status;
pub mod ticker;
pub mod user;

pub use errors::{
    KiteError, KiteExceptionType, KiteHttpStatus, RateLimit, RateLimitConstraints,
    RateLimitEndpoint,
};
pub use response::{
    ApiResponse, KiteErrorResponse, KiteResponse, KiteResult, ListResponse, SuccessResponse,
};
pub use user::{
    Bank, FullUserMeta, FullUserProfile, LogoutRequest, RefreshTokenRequest, TokenRequest,
    UserMeta, UserProfile, UserSession, UserSessionTokens,
};
pub use gtt::{GTTMeta, GTTResponse, GTTType};
pub use mutualfunds::{MFOrderResponse, MFSIPResponse};
pub use orders::OrderResponse;
pub use portfolio::{ConvertPositionParams, HoldingsAuthResp};
pub use ticker::{Mode, Time};
