//! What the models read from their text and integer fields: order, SIP and
//! GTT statuses, transaction sides, position direction and instrument kind.

use super::gtt::GTTType;
use crate::text::str_eq;
use vstd::prelude::*;

verus! {

/// The lowercase form of a text, as `str::to_lowercase` writes it (by the
/// Unicode `Lowercase` property).
pub uninterp spec fn lowercase(s: Seq<char>) -> Seq<char>;

/// The uppercase form of a text, as `str::to_uppercase` writes it (by the
/// Unicode `Uppercase` property).
pub uninterp spec fn uppercase(s: Seq<char>) -> Seq<char>;

/// Calls `str::to_lowercase`.
#[verifier::external_body]
fn to_lowercase(s: &str) -> (r: String)
    ensures
        r@ == lowercase(s@),
{
    s.to_lowercase()
}

/// Calls `str::to_uppercase`.
#[verifier::external_body]
fn to_uppercase(s: &str) -> (r: String)
    ensures
        r@ == uppercase(s@),
{
    s.to_uppercase()
}

/// Whether a status, lowercased, is `name`.
pub fn status_is(status: &str, name: &str) -> (b: bool)
    ensures
        b == (lowercase(status@) == name@),
{
    let lower = to_lowercase(status);
    str_eq(lower.as_str(), name)
}

/// Whether a text, uppercased, is `name`.
pub fn upper_is(text: &str, name: &str) -> (b: bool)
    ensures
        b == (uppercase(text@) == name@),
{
    let upper = to_uppercase(text);
    str_eq(upper.as_str(), name)
}

/// The status of an order.
#[derive(Debug, Clone)]
pub struct OrderState {
    /// Status as the API reports it.
    pub status: String,
}

impl OrderState {
    /// Whether the order is complete.
    pub fn is_complete(&self) -> (b: bool)
        ensures
            b == (lowercase(self.status@) == "complete"@),
    {
        status_is(self.status.as_str(), "complete")
    }

    /// Whether the order is still open.
    pub fn is_pending(&self) -> (b: bool)
        ensures
            b == (lowercase(self.status@) == "open"@),
    {
        status_is(self.status.as_str(), "open")
    }

    /// Whether the order was cancelled.
    pub fn is_cancelled(&self) -> (b: bool)
        ensures
            b == (lowercase(self.status@) == "cancelled"@),
    {
        status_is(self.status.as_str(), "cancelled")
    }

    /// Whether the order was rejected.
    pub fn is_rejected(&self) -> (b: bool)
        ensures
            b == (lowercase(self.status@) == "rejected"@),
    {
        status_is(self.status.as_str(), "rejected")
    }
}

/// The side of a trade or order.
#[derive(Debug, Clone)]
pub struct TradeSide {
    /// Transaction type as the API reports it.
    pub transaction_type: String,
}

impl TradeSide {
    /// Whether it is a purchase.
    pub fn is_buy(&self) -> (b: bool)
        ensures
            b == (uppercase(self.transaction_type@) == "BUY"@),
    {
        upper_is(self.transaction_type.as_str(), "BUY")
    }

    /// Whether it is a sale.
    pub fn is_sell(&self) -> (b: bool)
        ensures
            b == (uppercase(self.transaction_type@) == "SELL"@),
    {
        upper_is(self.transaction_type.as_str(), "SELL")
    }
}

/// The status of a SIP.
#[derive(Debug, Clone)]
pub struct SipState {
    /// Status as the API reports it.
    pub status: String,
}

impl SipState {
    /// Whether the SIP is active.
    pub fn is_active(&self) -> (b: bool)
        ensures
            b == (lowercase(self.status@) == "active"@),
    {
        status_is(self.status.as_str(), "active")
    }

    /// Whether the SIP is paused.
    pub fn is_paused(&self) -> (b: bool)
        ensures
            b == (lowercase(self.status@) == "paused"@),
    {
        status_is(self.status.as_str(), "paused")
    }

    /// Whether the SIP was cancelled.
    pub fn is_cancelled(&self) -> (b: bool)
        ensures
            b == (lowercase(self.status@) == "cancelled"@),
    {
        status_is(self.status.as_str(), "cancelled")
    }

    /// Whether the SIP has completed.
    pub fn is_completed(&self) -> (b: bool)
        ensures
            b == (lowercase(self.status@) == "completed"@),
    {
        status_is(self.status.as_str(), "completed")
    }
}

/// The state of a GTT: status, trigger type and number of trigger values.
#[derive(Debug, Clone)]
pub struct GTTState {
    /// Status as the API reports it.
    pub status: String,
    /// Trigger type.
    pub gtt_type: GTTType,
    /// Number of trigger values.
    pub trigger_count: usize,
}

impl GTTState {
    /// Whether the GTT is active.
    pub fn is_active(&self) -> (b: bool)
        ensures
            b == (lowercase(self.status@) == "active"@),
    {
        status_is(self.status.as_str(), "active")
    }

    /// Whether the GTT has triggered.
    pub fn is_triggered(&self) -> (b: bool)
        ensures
            b == (lowercase(self.status@) == "triggered"@),
    {
        status_is(self.status.as_str(), "triggered")
    }

    /// Whether the GTT is disabled.
    pub fn is_disabled(&self) -> (b: bool)
        ensures
            b == (lowercase(self.status@) == "disabled"@),
    {
        status_is(self.status.as_str(), "disabled")
    }

    /// Whether the GTT watches a single trigger value.
    pub fn is_single_leg(&self) -> (b: bool)
        ensures
            b == (self.gtt_type == GTTType::Single),
    {
        self.gtt_type == GTTType::Single
    }

    /// Whether the GTT watches two trigger values, one cancelling the other.
    pub fn is_oco(&self) -> (b: bool)
        ensures
            b == (self.gtt_type == GTTType::TwoLeg),
    {
        self.gtt_type == GTTType::TwoLeg
    }

    /// Number of trigger values.
    pub fn trigger_count(&self) -> (n: usize)
        ensures
            n == self.trigger_count,
    {
        self.trigger_count
    }
}

/// The direction of a position, from its signed quantity.
#[derive(Debug, Clone, Copy)]
pub struct PositionQuantity {
    /// Net quantity: positive when long, negative when short.
    pub quantity: i32,
}

impl PositionQuantity {
    /// Whether the position is long.
    pub fn is_long(&self) -> (b: bool)
        ensures
            b == (self.quantity > 0),
    {
        self.quantity > 0
    }

    /// Whether the position is short.
    pub fn is_short(&self) -> (b: bool)
        ensures
            b == (self.quantity < 0),
    {
        self.quantity < 0
    }

    /// Whether the position is flat.
    pub fn is_flat(&self) -> (b: bool)
        ensures
            b == (self.quantity == 0),
    {
        self.quantity == 0
    }

    /// The size of the position.
    pub fn abs_quantity(&self) -> (q: i32)
        requires
            self.quantity != i32::MIN,
        ensures
            q == (if self.quantity < 0 {
                -self.quantity
            } else {
                self.quantity as int
            }),
    {
        if self.quantity < 0 {
            -self.quantity
        } else {
            self.quantity
        }
    }
}

/// What kind of instrument a listing is: its segment, exchange and type.
#[derive(Debug, Clone)]
pub struct InstrumentKind {
    /// Segment, such as `NSE` or `NFO-OPT`.
    pub segment: String,
    /// Exchange.
    pub exchange: String,
    /// Instrument type, such as `EQ`, `FUT`, `CE` or `PE`.
    pub instrument_type: String,
}

impl InstrumentKind {
    /// Whether the instrument is equity: its segment is `EQ` in any case,
    /// or it is listed on NSE or BSE.
    pub fn is_equity(&self) -> (b: bool)
        ensures
            b == (uppercase(self.segment@) == "EQ"@ || self.exchange@ == "NSE"@ || self.exchange@
                == "BSE"@),
    {
        upper_is(self.segment.as_str(), "EQ") || str_eq(self.exchange.as_str(), "NSE") || str_eq(
            self.exchange.as_str(),
            "BSE",
        )
    }

    /// Whether the instrument is a derivative: its segment is NFO or BFO in
    /// any case, or it is a future or an option.
    pub fn is_derivative(&self) -> (b: bool)
        ensures
            b == (uppercase(self.segment@) == "NFO"@ || uppercase(self.segment@) == "BFO"@
                || self.instrument_type@ == "FUT"@ || self.instrument_type@ == "CE"@
                || self.instrument_type@ == "PE"@),
    {
        upper_is(self.segment.as_str(), "NFO") || upper_is(self.segment.as_str(), "BFO") || str_eq(
            self.instrument_type.as_str(),
            "FUT",
        ) || str_eq(self.instrument_type.as_str(), "CE") || str_eq(
            self.instrument_type.as_str(),
            "PE",
        )
    }

    /// Whether the instrument is a futures contract.
    pub fn is_futures(&self) -> (b: bool)
        ensures
            b == (self.instrument_type@ == "FUT"@),
    {
        str_eq(self.instrument_type.as_str(), "FUT")
    }

    /// Whether the instrument is an option.
    pub fn is_options(&self) -> (b: bool)
        ensures
            b == (self.instrument_type@ == "CE"@ || self.instrument_type@ == "PE"@),
    {
        str_eq(self.instrument_type.as_str(), "CE") || str_eq(self.instrument_type.as_str(), "PE")
    }

    /// Whether the instrument is a call option.
    pub fn is_call_option(&self) -> (b: bool)
        ensures
            b == (self.instrument_type@ == "CE"@),
    {
        str_eq(self.instrument_type.as_str(), "CE")
    }

    /// Whether the instrument is a put option.
    pub fn is_put_option(&self) -> (b: bool)
        ensures
            b == (self.instrument_type@ == "PE"@),
    {
        str_eq(self.instrument_type.as_str(), "PE")
    }
}

} // verus!
