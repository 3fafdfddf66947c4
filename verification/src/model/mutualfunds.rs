//! Mutual fund models that carry no amounts.

use vstd::prelude::*;

verus! {

/// The answer to placing a mutual fund order.
#[derive(Debug, Clone)]
pub struct MFOrderResponse {
    /// ID of the order.
    pub order_id: String,
}

/// The answer to placing a SIP.
#[derive(Debug, Clone)]
pub struct MFSIPResponse {
    /// ID of the first order, if one was placed.
    pub order_id: Option<String>,
    /// ID of the SIP.
    pub sip_id: String,
}

} // verus!
