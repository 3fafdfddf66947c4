//! Margin segment constants

use vstd::prelude::*;

verus! {

/// Equity segment
pub const EQUITY: &'static str = "equity";

/// Commodity segment
pub const COMMODITY: &'static str = "commodity";

} // verus!
