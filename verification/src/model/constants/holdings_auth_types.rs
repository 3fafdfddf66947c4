//! Holdings authorization type constants

use vstd::prelude::*;

verus! {

/// Mutual Fund holdings
pub const MF: &'static str = "mf";

/// Equity holdings
pub const EQUITY: &'static str = "equity";

} // verus!
