//! Order type constants

use vstd::prelude::*;

verus! {

/// Market order
pub const MARKET: &'static str = "MARKET";

/// Limit order
pub const LIMIT: &'static str = "LIMIT";

/// Stop loss order
pub const SL: &'static str = "SL";

/// Stop loss market order
pub const SLM: &'static str = "SL-M";

} // verus!
