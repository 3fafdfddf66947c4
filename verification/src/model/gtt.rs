//! GTT (good till triggered) models that carry no prices: the trigger
//! type, the rejection note and the placement response.

use vstd::prelude::*;

verus! {

/// The kinds of GTT trigger.
#[derive(Debug, Clone, Copy, PartialEq, Eq, Structural)]
pub enum GTTType {
    /// One trigger value is watched.
    Single,
    /// Two trigger values are watched; executing one cancels the other.
    TwoLeg,
}

/// Why a triggered GTT's order was rejected, if it was.
#[derive(Debug, Clone)]
pub struct GTTMeta {
    /// The rejection reason.
    pub rejection_reason: Option<String>,
}

/// The answer to placing or modifying a GTT.
#[derive(Debug, Clone)]
pub struct GTTResponse {
    /// ID of the trigger.
    pub trigger_id: u32,
}

} // verus!
