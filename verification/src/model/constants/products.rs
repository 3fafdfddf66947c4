//! Kite Connect API product constants

use vstd::prelude::*;

verus! {

/// Bracket Order
pub const BO: &'static str = "BO";

/// Cover Order
pub const CO: &'static str = "CO";

/// Margin Intraday Squareoff
pub const MIS: &'static str = "MIS";

/// Cash and Carry (delivery)
pub const CNC: &'static str = "CNC";

/// Normal (carry forward)
pub const NRML: &'static str = "NRML";

/// Margin Trade Funding
pub const MTF: &'static str = "MTF";

} // verus!
