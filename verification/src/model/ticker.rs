//! Ticker models without prices: subscription modes and timestamps.

use vstd::prelude::*;

verus! {

/// How much market data a ticker subscription carries.
#[derive(Debug, Clone, Copy, PartialEq, Eq, Structural)]
pub enum Mode {
    /// Last traded price only.
    LTP,
    /// Quote data: OHLC, last price, volume and the like.
    Quote,
    /// Quote data and market depth.
    Full,
}

/// Whether `chrono::DateTime::<Utc>::from_timestamp` gives a date for a
/// number of seconds since the Unix epoch (it refuses the seconds whose date
/// falls outside its calendar).
pub uninterp spec fn chrono_accepts(secs: i64) -> bool;

/// Calls `chrono::DateTime::from_timestamp(secs, 0)` and tells whether it
/// gave a date.
#[verifier::external_body]
fn timestamp_in_range(secs: i64) -> (b: bool)
    ensures
        b == chrono_accepts(secs),
{
    chrono::DateTime::from_timestamp(secs, 0).is_some()
}

/// A point in time, in whole seconds since the Unix epoch (UTC).
#[derive(Debug, Clone, Copy, PartialEq, Eq, Structural)]
pub struct Time {
    /// Seconds since the Unix epoch.
    pub timestamp: i64,
}

impl Time {
    /// The time `timestamp` seconds after the epoch; the epoch itself where
    /// the calendar cannot hold that date.
    pub fn from_unix(timestamp: i64) -> (t: Self)
        ensures
            t.timestamp == if chrono_accepts(timestamp) {
                timestamp
            } else {
                0
            },
    {
        if timestamp_in_range(timestamp) {
            Time { timestamp }
        } else {
            Time { timestamp: 0 }
        }
    }

    /// Seconds since the epoch.
    pub fn unix(&self) -> (s: i64)
        ensures
            s == self.timestamp,
    {
        self.timestamp
    }

    /// Whether this is the epoch itself.
    pub fn is_zero(&self) -> (b: bool)
        ensures
            b == (self.timestamp == 0),
    {
        self.timestamp == 0
    }
}

impl Default for Time {
    /// The epoch.
    fn default() -> (t: Self)
        ensures
            t.timestamp == 0,
    {
        Time { timestamp: 0 }
    }
}

} // verus!
