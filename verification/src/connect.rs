//! Client side of the KiteConnect API: endpoints, rate limiting, retries,
//! request assembly and response helpers.

pub mod api;
pub mod client;
pub mod config;
pub mod endpoints;
pub mod instruments;
pub mod rate_limiter;
pub mod reply;
pub mod request;

pub use endpoints::{Endpoint, HttpMethod, KiteEndpoint, RateLimitCategory};
pub use rate_limiter::{CategoryLimiter, CategoryStats, RateLimiter, RateLimiterStats};
pub use config::{
    AttemptOutcome, CacheConfig, KiteConnectConfig, ResponseCache, RetryAction, RetryConfig,
    RetryState,
};
pub use request::ApiRequest;
pub use client::KiteConnect;
