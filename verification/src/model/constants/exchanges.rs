//! Exchange constants

use vstd::prelude::*;

verus! {

/// National Stock Exchange
pub const NSE: &'static str = "NSE";

/// Bombay Stock Exchange
pub const BSE: &'static str = "BSE";

/// Multi Commodity Exchange
pub const MCX: &'static str = "MCX";

/// NSE Futures and Options
pub const NFO: &'static str = "NFO";

/// BSE Futures and Options
pub const BFO: &'static str = "BFO";

/// Currency Derivatives Segment
pub const CDS: &'static str = "CDS";

/// BSE Currency Derivatives
pub const BCD: &'static str = "BCD";

} // verus!
