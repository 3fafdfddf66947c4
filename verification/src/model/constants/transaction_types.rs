//! Transaction type constants

use vstd::prelude::*;

verus! {

/// Buy transaction
pub const BUY: &'static str = "BUY";

/// Sell transaction
pub const SELL: &'static str = "SELL";

} // verus!
