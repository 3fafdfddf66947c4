//! Verified core of a client for the Zerodha KiteConnect REST API.
//!
//! The library holds everything that decides: the endpoint table and its rate
//! limit categories, the per-category rate limiter, retry and cache decisions,
//! the assembly of every API request (path, query and form parameters), the
//! request checksum, CSV instrument dumps turned into header-keyed rows, and
//! the API's error model. Sending requests and decoding typed JSON bodies is
//! left to the caller.

pub mod connect;
pub mod model;
pub mod text;
