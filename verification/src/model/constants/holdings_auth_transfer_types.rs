//! Holdings authorization transfer type constants

use vstd::prelude::*;

verus! {

/// Pre-trade authorization
pub const PRE_TRADE: &'static str = "pre";

/// Post-trade authorization
pub const POST_TRADE: &'static str = "post";

/// Off-market authorization
pub const OFF_MARKET: &'static str = "off";

/// Gift authorization
pub const GIFT: &'static str = "gift";

} // verus!
