//! Order variety constants

use vstd::prelude::*;

verus! {

/// Regular order
pub const REGULAR: &'static str = "regular";

/// After Market Order
pub const AMO: &'static str = "amo";

/// Bracket Order
pub const BO: &'static str = "bo";

/// Cover Order
pub const CO: &'static str = "co";

/// Iceberg Order
pub const ICEBERG: &'static str = "iceberg";

/// Auction order
pub const AUCTION: &'static str = "auction";

} // verus!
