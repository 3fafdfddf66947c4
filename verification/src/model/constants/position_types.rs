//! Position type constants

use vstd::prelude::*;

verus! {

/// Day position
pub const DAY: &'static str = "day";

/// Overnight position
pub const OVERNIGHT: &'static str = "overnight";

} // verus!
