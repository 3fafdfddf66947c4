//! GTT (Good Till Triggered) type constants

use vstd::prelude::*;

verus! {

/// Single trigger GTT
pub const SINGLE: &'static str = "single";

/// One Cancels Other (OCO) GTT
pub const OCO: &'static str = "two-leg";

} // verus!
