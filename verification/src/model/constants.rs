//! Constants of the KiteConnect API: products, varieties, order types,
//! validities, exchanges, statuses and endpoint path templates.

/// Kite Connect API product constants
pub mod products;
/// Order variety constants
pub mod varieties;
/// Order type constants
pub mod order_types;
/// Order validity constants
pub mod validities;
/// Position type constants
pub mod position_types;
/// Transaction type constants
pub mod transaction_types;
/// Exchange constants
pub mod exchanges;
/// Margin segment constants
pub mod margin_segments;
/// Order status constants
pub mod order_statuses;
/// Holdings authorization type constants
pub mod holdings_auth_types;
/// Holdings authorization transfer type constants
pub mod holdings_auth_transfer_types;
/// GTT (Good Till Triggered) type constants
pub mod gtt_types;
/// Mutual Fund transaction type constants
pub mod mf_transaction_types;
/// API endpoints constants
pub mod endpoints;
