//! Order status constants

use vstd::prelude::*;

verus! {

/// Order completed
pub const COMPLETE: &'static str = "COMPLETE";

/// Order rejected
pub const REJECTED: &'static str = "REJECTED";

/// Order cancelled
pub const CANCELLED: &'static str = "CANCELLED";

/// Order open/pending
pub const OPEN: &'static str = "OPEN";

/// Order pending trigger
pub const TRIGGER_PENDING: &'static str = "TRIGGER PENDING";

} // verus!
