//! Mutual Fund transaction type constants

use vstd::prelude::*;

verus! {

/// Purchase transaction
pub const BUY: &'static str = "BUY";

/// Redemption transaction
pub const SELL: &'static str = "SELL";

} // verus!
