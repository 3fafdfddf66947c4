//! Order validity constants

use vstd::prelude::*;

verus! {

/// Day order (valid for the trading day)
pub const DAY: &'static str = "DAY";

/// Immediate or Cancel
pub const IOC: &'static str = "IOC";

/// Time Till Live
pub const TTL: &'static str = "TTL";

} // verus!
