//! Portfolio models that carry no prices: position conversion and holdings
//! authorisation.

use vstd::prelude::*;

verus! {

/// The parameters of a position conversion.
#[derive(Debug, Clone)]
pub struct ConvertPositionParams {
    /// Exchange of the instrument.
    pub exchange: String,
    /// Trading symbol of the instrument.
    pub tradingsymbol: String,
    /// Product the position is in.
    pub old_product: String,
    /// Product the position moves to.
    pub new_product: String,
    /// `overnight` or `day`.
    pub position_type: String,
    /// `BUY` or `SELL`.
    pub transaction_type: String,
    /// Quantity to convert.
    pub quantity: i32,
}

impl ConvertPositionParams {
    /// Conversion parameters from their parts.
    pub fn new(
        exchange: String,
        tradingsymbol: String,
        old_product: String,
        new_product: String,
        position_type: String,
        transaction_type: String,
        quantity: i32,
    ) -> (p: Self)
        ensures
            p.exchange == exchange,
            p.tradingsymbol == tradingsymbol,
            p.old_product == old_product,
            p.new_product == new_product,
            p.position_type == position_type,
            p.transaction_type == transaction_type,
            p.quantity == quantity,
    {
        ConvertPositionParams {
            exchange,
            tradingsymbol,
            old_product,
            new_product,
            position_type,
            transaction_type,
            quantity,
        }
    }
}

/// The answer to starting a holdings authorisation.
#[derive(Debug, Clone)]
pub struct HoldingsAuthResp {
    /// ID of the authorisation request.
    pub request_id: String,
    /// Where to send the user to authorise.
    pub redirect_url: String,
}

} // verus!
