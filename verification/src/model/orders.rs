//! Order models that carry no prices.

use vstd::prelude::*;

verus! {

/// The answer to placing an order.
#[derive(Debug, Clone)]
pub struct OrderResponse {
    /// ID of the order.
    pub order_id: String,
}

} // verus!
