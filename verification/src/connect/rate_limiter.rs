//! Per-category rate limiting after the KiteConnect API's published limits.
//!
//! Time is a monotonic clock reading in nanoseconds, supplied by the caller
//! (for instance the nanoseconds elapsed since some fixed `Instant`). Every
//! decision below is a function of the limiter's state and that reading; the
//! caller does the waiting.

use super::endpoints::{
    category_min_delay_millis, category_rps, endpoint_category, KiteEndpoint, RateLimitCategory,
};
use crate::model::errors::{default_rate_of, RateLimitEndpoint};
use vstd::prelude::*;

verus! {

/// Latest clock reading that the limiter accepts, in nanoseconds; it leaves
/// room to add any category's minimum delay without overflow.
pub const MAX_CLOCK_NANOS: u64 = 18_000_000_000_000_000_000;

/// Nanoseconds in a millisecond.
pub const NANOS_PER_MILLI: u64 = 1_000_000;

/// Minimum spacing of a category's requests in nanoseconds.
pub open spec fn category_min_delay_nanos(c: RateLimitCategory) -> u64 {
    (category_min_delay_millis(c) * 1_000_000) as u64
}

/// Time elapsed from `last` to `now`, zero when `now` is earlier.
pub open spec fn elapsed_since(last: u64, now: u64) -> u64 {
    if now >= last {
        (now - last) as u64
    } else {
        0
    }
}

/// Rate limiter state of one category.
#[derive(Debug)]
pub struct CategoryLimiter {
    /// Clock reading of the last request of this category, if any.
    pub last_request: Option<u64>,
    /// Minimum delay between two requests, in nanoseconds.
    pub min_delay_nanos: u64,
    /// Number of requests recorded in the current window.
    pub request_count: u32,
    /// Requests per second allowed in this category.
    pub requests_per_second: u32,
}

impl CategoryLimiter {
    /// Delay a request at clock reading `now` must wait for.
    pub open spec fn delay_at(self, now: u64) -> u64 {
        match self.last_request {
            Some(last) => if elapsed_since(last, now) < self.min_delay_nanos {
                (self.min_delay_nanos - elapsed_since(last, now)) as u64
            } else {
                0
            },
            None => 0,
        }
    }

    /// Whether a request at clock reading `now` needs no wait.
    pub open spec fn can_request_at(self, now: u64) -> bool {
        match self.last_request {
            Some(last) => elapsed_since(last, now) >= self.min_delay_nanos,
            None => true,
        }
    }

    /// The earliest reading at or after `now` that lies a full minimum delay
    /// after the last recorded request: where a request asked for at `now`
    /// is placed.
    pub open spec fn next_free(self, now: u64) -> int {
        match self.last_request {
            Some(t) => if t + self.min_delay_nanos > now {
                t + self.min_delay_nanos
            } else {
                now as int
            },
            None => now as int,
        }
    }

    /// A fresh limiter of a category: no request yet, the category's limits.
    pub open spec fn fresh(c: RateLimitCategory) -> CategoryLimiter {
        CategoryLimiter {
            last_request: None,
            min_delay_nanos: category_min_delay_nanos(c),
            request_count: 0,
            requests_per_second: category_rps(c),
        }
    }

    /// A fresh limiter for `category`.
    pub fn new(category: RateLimitCategory) -> (l: Self)
        ensures
            l == CategoryLimiter::fresh(category),
            l.requests_per_second * l.min_delay_nanos <= 1_000_000_000,
            1_000_000_000 < l.requests_per_second * (l.min_delay_nanos + NANOS_PER_MILLI),
    {
        proof {
            lemma_fresh_spacing_matches_rate(category, 0);
        }
        let ms = category.min_delay_millis();
        let rps = category.requests_per_second();
        assert(ms <= 1000);
        CategoryLimiter {
            last_request: None,
            min_delay_nanos: ms * NANOS_PER_MILLI,
            request_count: 0,
            requests_per_second: rps,
        }
    }

    /// Whether a request at clock reading `now` can be made without waiting:
    /// no request yet, or the minimum delay has passed since the last one.
    pub fn can_request_now(&self, now: u64) -> (b: bool)
        ensures
            b == self.can_request_at(now),
    {
        match self.last_request {
            Some(last) => {
                let elapsed = if now >= last { now - last } else { 0 };
                elapsed >= self.min_delay_nanos
            },
            None => true,
        }
    }

    /// How long a request at clock reading `now` must wait, in nanoseconds;
    /// zero when no wait is needed.
    pub fn delay_until_next_request(&self, now: u64) -> (d: u64)
        ensures
            d == self.delay_at(now),
    {
        match self.last_request {
            Some(last) => {
                let elapsed = if now >= last { now - last } else { 0 };
                if elapsed < self.min_delay_nanos {
                    self.min_delay_nanos - elapsed
                } else {
                    0
                }
            },
            None => 0,
        }
    }

    /// Records a request made at clock reading `now`; the count wraps around
    /// at `u32::MAX`.
    pub fn record_request(&mut self, now: u64)
        ensures
            final(self).last_request == Some(now),
            final(self).request_count == old(self).request_count.wrapping_add(1),
            final(self).min_delay_nanos == old(self).min_delay_nanos,
            final(self).requests_per_second == old(self).requests_per_second,
    {
        self.last_request = Some(now);
        self.request_count = self.request_count.wrapping_add(1);
    }

    /// This limiter with a request recorded at clock reading `now`.
    fn recorded(&self, now: u64) -> (l: Self)
        ensures
            l == (CategoryLimiter {
                last_request: Some(now),
                request_count: self.request_count.wrapping_add(1),
                ..*self
            }),
    {
        CategoryLimiter {
            last_request: Some(now),
            min_delay_nanos: self.min_delay_nanos,
            request_count: self.request_count.wrapping_add(1),
            requests_per_second: self.requests_per_second,
        }
    }

    /// Resets the request count of the current window.
    pub fn reset_count(&mut self)
        ensures
            final(self).request_count == 0,
            final(self).last_request == old(self).last_request,
            final(self).min_delay_nanos == old(self).min_delay_nanos,
            final(self).requests_per_second == old(self).requests_per_second,
    {
        self.request_count = 0;
    }
}

impl Clone for CategoryLimiter {
    fn clone(&self) -> (l: Self)
        ensures
            l == *self,
    {
        CategoryLimiter {
            last_request: self.last_request,
            min_delay_nanos: self.min_delay_nanos,
            request_count: self.request_count,
            requests_per_second: self.requests_per_second,
        }
    }
}

/// Rate limiter of the KiteConnect API: one limiter per category and a
/// switch that turns all limiting off.
#[derive(Debug)]
pub struct RateLimiter {
    quote: CategoryLimiter,
    historical: CategoryLimiter,
    orders: CategoryLimiter,
    standard: CategoryLimiter,
    enabled: bool,
}

/// A limiter that matches its category's limits and whose last request lies
/// within the accepted clock range.
pub open spec fn limiter_matches(l: CategoryLimiter, c: RateLimitCategory) -> bool {
    &&& l.min_delay_nanos == category_min_delay_nanos(c)
    &&& l.requests_per_second == category_rps(c)
    &&& l.last_request matches Some(t) ==> t <= MAX_CLOCK_NANOS
}

impl RateLimiter {
    #[verifier::type_invariant]
    spec fn well_formed(self) -> bool {
        &&& limiter_matches(self.quote, RateLimitCategory::Quote)
        &&& limiter_matches(self.historical, RateLimitCategory::Historical)
        &&& limiter_matches(self.orders, RateLimitCategory::Orders)
        &&& limiter_matches(self.standard, RateLimitCategory::Standard)
    }

    /// The limiter of category `c`.
    pub closed spec fn limiter(self, c: RateLimitCategory) -> CategoryLimiter {
        match c {
            RateLimitCategory::Quote => self.quote,
            RateLimitCategory::Historical => self.historical,
            RateLimitCategory::Orders => self.orders,
            RateLimitCategory::Standard => self.standard,
        }
    }

    /// Whether limiting is on.
    pub closed spec fn spec_enabled(self) -> bool {
        self.enabled
    }

    /// A rate limiter with fresh limiters for all four categories.
    pub fn new(enabled: bool) -> (r: Self)
        ensures
            r.spec_enabled() == enabled,
            forall|c: RateLimitCategory| #[trigger] r.limiter(c) == CategoryLimiter::fresh(c),
    {
        let r = RateLimiter {
            quote: CategoryLimiter::new(RateLimitCategory::Quote),
            historical: CategoryLimiter::new(RateLimitCategory::Historical),
            orders: CategoryLimiter::new(RateLimitCategory::Orders),
            standard: CategoryLimiter::new(RateLimitCategory::Standard),
            enabled,
        };
        r
    }

    fn limiter_of(&self, c: RateLimitCategory) -> (l: &CategoryLimiter)
        ensures
            *l == self.limiter(c),
    {
        match c {
            RateLimitCategory::Quote => &self.quote,
            RateLimitCategory::Historical => &self.historical,
            RateLimitCategory::Orders => &self.orders,
            RateLimitCategory::Standard => &self.standard,
        }
    }

    /// Delay a request to `endpoint` at clock reading `now` must wait for, in
    /// nanoseconds: zero when limiting is off, else the delay of the
    /// endpoint's category.
    pub fn get_delay_for_request(&self, endpoint: &KiteEndpoint, now: u64) -> (d: u64)
        ensures
            d == if self.spec_enabled() {
                self.limiter(endpoint_category(*endpoint)).delay_at(now)
            } else {
                0
            },
            forall|c: RateLimitCategory| limiter_matches(#[trigger] self.limiter(c), c),
    {
        proof {
            use_type_invariant(self);
        }
        if !self.enabled {
            return 0;
        }
        let category = endpoint.rate_limit_category();
        self.limiter_of(category).delay_until_next_request(now)
    }

    /// Whether a request to `endpoint` at clock reading `now` can go without
    /// waiting: always when limiting is off.
    pub fn can_request_immediately(&self, endpoint: &KiteEndpoint, now: u64) -> (b: bool)
        ensures
            b == (!self.spec_enabled() || self.limiter(endpoint_category(*endpoint)).can_request_at(
                now,
            )),
    {
        if !self.enabled {
            return true;
        }
        let category = endpoint.rate_limit_category();
        self.limiter_of(category).can_request_now(now)
    }

    /// Records a request to `endpoint` made at clock reading `now`, once the
    /// wait is over; nothing is recorded while limiting is off. Other
    /// categories are left alone.
    pub fn record_request(&mut self, endpoint: &KiteEndpoint, now: u64)
        requires
            now <= MAX_CLOCK_NANOS,
        ensures
            final(self).spec_enabled() == old(self).spec_enabled(),
            old(self).spec_enabled() ==> {
                let c = endpoint_category(*endpoint);
                let l = old(self).limiter(c);
                final(self).limiter(c) == CategoryLimiter {
                    last_request: Some(now),
                    request_count: l.request_count.wrapping_add(1),
                    ..l
                }
            },
            !old(self).spec_enabled() ==> final(self).limiter(endpoint_category(*endpoint))
                == old(self).limiter(endpoint_category(*endpoint)),
            forall|c: RateLimitCategory|
                c != endpoint_category(*endpoint) ==> #[trigger] final(self).limiter(c)
                    == old(self).limiter(c),
            forall|c: RateLimitCategory| limiter_matches(#[trigger] final(self).limiter(c), c),
    {
        proof {
            use_type_invariant(&*self);
        }
        if !self.enabled {
            return;
        }
        let category = endpoint.rate_limit_category();
        match category {
            RateLimitCategory::Quote => {
                self.quote = self.quote.recorded(now);
            },
            RateLimitCategory::Historical => {
                self.historical = self.historical.recorded(now);
            },
            RateLimitCategory::Orders => {
                self.orders = self.orders.recorded(now);
            },
            RateLimitCategory::Standard => {
                self.standard = self.standard.recorded(now);
            },
        }
    }

    /// Reserves the next slot of `endpoint`'s category for a request asked
    /// for at clock reading `now`, in one step: the request is recorded at
    /// the earliest reading, at or after `now`, that lies a full minimum delay
    /// after the category's last recorded request, and the wait until then is
    /// returned. With limiting off nothing is recorded and the wait is zero.
    /// Where that reading would pass the accepted clock range, nothing is
    /// recorded and `None` is returned. Other categories are left alone.
    pub fn reserve(&mut self, endpoint: &KiteEndpoint, now: u64) -> (r: Option<u64>)
        ensures
            final(self).spec_enabled() == old(self).spec_enabled(),
            !old(self).spec_enabled() ==> r == Some(0u64) && final(self).limiter(
                endpoint_category(*endpoint),
            ) == old(self).limiter(endpoint_category(*endpoint)),
            old(self).spec_enabled() ==> {
                let c = endpoint_category(*endpoint);
                let l = old(self).limiter(c);
                let at = l.next_free(now);
                if at <= MAX_CLOCK_NANOS {
                    &&& r == Some((at - now) as u64)
                    &&& final(self).limiter(c) == CategoryLimiter {
                        last_request: Some(at as u64),
                        request_count: l.request_count.wrapping_add(1),
                        ..l
                    }
                } else {
                    r is None && final(self).limiter(c) == l
                }
            },
            forall|c: RateLimitCategory|
                c != endpoint_category(*endpoint) ==> #[trigger] final(self).limiter(c)
                    == old(self).limiter(c),
            forall|c: RateLimitCategory| limiter_matches(#[trigger] final(self).limiter(c), c),
    {
        proof {
            use_type_invariant(&*self);
        }
        if !self.enabled {
            return Some(0);
        }
        let category = endpoint.rate_limit_category();
        let l = self.limiter_of(category);
        let at: u64 = match l.last_request {
            Some(t) => if t + l.min_delay_nanos > now {
                t + l.min_delay_nanos
            } else {
                now
            },
            None => now,
        };
        if at > MAX_CLOCK_NANOS {
            return None;
        }
        let wait = at - now;
        match category {
            RateLimitCategory::Quote => {
                self.quote = self.quote.recorded(at);
            },
            RateLimitCategory::Historical => {
                self.historical = self.historical.recorded(at);
            },
            RateLimitCategory::Orders => {
                self.orders = self.orders.recorded(at);
            },
            RateLimitCategory::Standard => {
                self.standard = self.standard.recorded(at);
            },
        }
        Some(wait)
    }

    /// Statistics of the limiter as seen at any time: for each category, in
    /// the order Quote, Historical, Orders, Standard, its request count,
    /// limit, last request and the reading from which the next request needs
    /// no wait.
    pub fn get_stats(&self) -> (s: RateLimiterStats)
        ensures
            s.enabled == self.spec_enabled(),
            s.categories@.len() == 4,
            s.categories@[0].0 == RateLimitCategory::Quote,
            s.categories@[1].0 == RateLimitCategory::Historical,
            s.categories@[2].0 == RateLimitCategory::Orders,
            s.categories@[3].0 == RateLimitCategory::Standard,
            forall|i: int|
                0 <= i < 4 ==> #[trigger] s.categories@[i].1 == stats_of(
                    self.limiter(s.categories@[i].0),
                ),
    {
        proof {
            use_type_invariant(self);
        }
        let mut categories: Vec<(RateLimitCategory, CategoryStats)> = Vec::new();
        categories.push((RateLimitCategory::Quote, CategoryStats::of_limiter(&self.quote)));
        categories.push(
            (RateLimitCategory::Historical, CategoryStats::of_limiter(&self.historical)),
        );
        categories.push((RateLimitCategory::Orders, CategoryStats::of_limiter(&self.orders)));
        categories.push((RateLimitCategory::Standard, CategoryStats::of_limiter(&self.standard)));
        RateLimiterStats { enabled: self.enabled, categories }
    }

    /// Turns limiting on or off; the limiters keep their state.
    pub fn set_enabled(&mut self, enabled: bool)
        ensures
            final(self).spec_enabled() == enabled,
            forall|c: RateLimitCategory| #[trigger] final(self).limiter(c) == old(self).limiter(c),
    {
        proof {
            use_type_invariant(&*self);
        }
        self.enabled = enabled;
    }

    /// Whether limiting is on.
    pub fn is_enabled(&self) -> (b: bool)
        ensures
            b == self.spec_enabled(),
    {
        self.enabled
    }
}

impl Default for RateLimiter {
    fn default() -> (r: Self)
        ensures
            r.spec_enabled(),
            forall|c: RateLimitCategory| #[trigger] r.limiter(c) == CategoryLimiter::fresh(c),
    {
        Self::new(true)
    }
}

/// Statistics of a rate limiter.
#[derive(Debug, Clone)]
pub struct RateLimiterStats {
    /// Whether limiting is on.
    pub enabled: bool,
    /// Statistics of each category, one entry per category.
    pub categories: Vec<(RateLimitCategory, CategoryStats)>,
}

impl RateLimiterStats {
    /// Statistics of category `c`.
    pub fn category(&self, c: RateLimitCategory) -> (s: Option<&CategoryStats>)
        ensures
            match s {
                Some(st) => exists|i: int|
                    0 <= i < self.categories@.len() && self.categories@[i].0 == c
                        && self.categories@[i].1 == *st
                        && forall|j: int| 0 <= j < i ==> self.categories@[j].0 != c,
                None => forall|i: int|
                    0 <= i < self.categories@.len() ==> self.categories@[i].0 != c,
            },
    {
        let mut i: usize = 0;
        while i < self.categories.len()
            invariant
                0 <= i <= self.categories@.len(),
                forall|j: int| 0 <= j < i ==> self.categories@[j].0 != c,
            decreases self.categories@.len() - i,
        {
            if self.categories[i].0 == c {
                return Some(&self.categories[i].1);
            }
            i = i + 1;
        }
        None
    }
}

/// Statistics of one category.
#[derive(Debug, Clone)]
pub struct CategoryStats {
    /// Requests recorded in the current window.
    pub request_count: u32,
    /// Requests per second allowed in the category.
    pub requests_per_second: u32,
    /// Clock reading of the last request, if any.
    pub last_request: Option<u64>,
    /// Clock reading from which the next request needs no wait, if any
    /// request was made.
    pub next_available: Option<u64>,
}

/// The statistics of a limiter.
pub open spec fn stats_of(l: CategoryLimiter) -> CategoryStats {
    CategoryStats {
        request_count: l.request_count,
        requests_per_second: l.requests_per_second,
        last_request: l.last_request,
        next_available: match l.last_request {
            Some(t) => Some((t + l.min_delay_nanos) as u64),
            None => None,
        },
    }
}

impl CategoryStats {
    fn of_limiter(l: &CategoryLimiter) -> (s: Self)
        requires
            l.last_request matches Some(t) ==> t + l.min_delay_nanos <= u64::MAX,
        ensures
            s == stats_of(*l),
    {
        CategoryStats {
            request_count: l.request_count,
            requests_per_second: l.requests_per_second,
            last_request: l.last_request,
            next_available: match l.last_request {
                Some(t) => Some(t + l.min_delay_nanos),
                None => None,
            },
        }
    }

    /// Whether the category must still wait at clock reading `now`: its next
    /// free reading lies after `now`.
    pub fn is_at_limit(&self, now: u64) -> (b: bool)
        ensures
            b == match self.next_available {
                Some(next) => next > now,
                None => false,
            },
    {
        match self.next_available {
            Some(next) => next > now,
            None => false,
        }
    }

    /// Requests left in the current window: the limit minus the count, or
    /// zero once the count reaches the limit.
    pub fn remaining_capacity(&self) -> (r: u32)
        ensures
            r == if self.request_count <= self.requests_per_second {
                (self.requests_per_second - self.request_count) as u32
            } else {
                0
            },
    {
        self.requests_per_second.saturating_sub(self.request_count)
    }
}


/// A request needs no wait exactly when its delay is zero.
pub proof fn lemma_can_request_iff_no_delay(l: CategoryLimiter, now: u64)
    ensures
        l.can_request_at(now) <==> l.delay_at(now) == 0,
{
}

/// The wait never exceeds the category's minimum delay.
pub proof fn lemma_delay_at_most_min_delay(l: CategoryLimiter, now: u64)
    ensures
        l.delay_at(now) <= l.min_delay_nanos,
{
}

/// Right after a request at `t`, the next one waits the full minimum delay;
/// at a later reading `now` it waits what is left of that delay, and nothing
/// once the minimum delay has passed.
pub proof fn lemma_delay_after_request(l: CategoryLimiter, t: u64, now: u64)
    requires
        t <= now,
    ensures
        ({
            let r = CategoryLimiter { last_request: Some(t), ..l };
            &&& r.delay_at(t) == l.min_delay_nanos
            &&& now - t < l.min_delay_nanos ==> r.delay_at(now) == l.min_delay_nanos - (now - t)
            &&& now - t >= l.min_delay_nanos ==> r.delay_at(now) == 0 && r.can_request_at(now)
        }),
{
}

/// The wait shrinks as time passes: a later reading never waits longer.
pub proof fn lemma_delay_non_increasing(l: CategoryLimiter, a: u64, b: u64)
    requires
        a <= b,
        l.last_request matches Some(t) ==> t <= a,
    ensures
        l.delay_at(b) <= l.delay_at(a),
{
}

/// Waiting the delay reported at `now` is enough: at `now` plus that delay
/// the request needs no further wait.
pub proof fn lemma_waiting_the_delay_suffices(l: CategoryLimiter, now: u64)
    requires
        l.last_request matches Some(t) ==> t <= now,
        now + l.delay_at(now) <= u64::MAX,
    ensures
        l.can_request_at((now + l.delay_at(now)) as u64),
        l.delay_at((now + l.delay_at(now)) as u64) == 0,
{
}

/// Reserved slots of a category are spaced by at least its minimum delay: a
/// slot never lies before the reading it was asked for at, lies a full
/// minimum delay after the last recorded request, and the next slot lies a
/// full minimum delay after it, whatever reading it is asked for at. Where
/// the last request lies no later than `now`, the wait to the slot is the
/// delay that `delay_at` reports.
pub proof fn lemma_reservations_spaced(l: CategoryLimiter, now: u64, later: u64)
    requires
        l.next_free(now) <= MAX_CLOCK_NANOS,
    ensures
        ({
            let at = l.next_free(now);
            let l2 = CategoryLimiter { last_request: Some(at as u64), ..l };
            &&& at >= now
            &&& (l.last_request matches Some(t) ==> at >= t + l.min_delay_nanos)
            &&& l2.next_free(later) >= at + l.min_delay_nanos
            &&& (l.last_request matches Some(t) ==> t <= now) ==> at - now == l.delay_at(now)
        }),
{
}

/// A fresh limiter spaces its category's requests so that its requests per
/// second fit in one second and one more would not: the spacing is
/// `1000 / rps` whole milliseconds, and a request right after one at `t`
/// waits exactly that spacing. The rates are those of the API's documented
/// limits (quotes 1, historical candles 3, order placement 10, all other
/// endpoints 10 per second), so standard and order endpoints are spaced
/// 100 ms apart, quotes a full second.
pub proof fn lemma_fresh_spacing_matches_rate(c: RateLimitCategory, t: u64)
    ensures
        ({
            let l = CategoryLimiter::fresh(c);
            &&& l.requests_per_second >= 1
            &&& l.min_delay_nanos % NANOS_PER_MILLI == 0
            &&& l.requests_per_second * l.min_delay_nanos <= 1_000_000_000
            &&& 1_000_000_000 < l.requests_per_second * (l.min_delay_nanos + NANOS_PER_MILLI)
            &&& CategoryLimiter { last_request: Some(t), ..l }.delay_at(t) == l.min_delay_nanos
            &&& l.requests_per_second == match c {
                RateLimitCategory::Quote => default_rate_of(RateLimitEndpoint::Quote),
                RateLimitCategory::Historical => default_rate_of(
                    RateLimitEndpoint::HistoricalCandle,
                ),
                RateLimitCategory::Orders => default_rate_of(RateLimitEndpoint::OrderPlacement),
                RateLimitCategory::Standard => default_rate_of(RateLimitEndpoint::Other),
            }
        }),
{
    match c {
        RateLimitCategory::Quote => {
            assert(category_min_delay_millis(c) == 1000);
        },
        RateLimitCategory::Historical => {
            assert(category_min_delay_millis(c) == 333);
        },
        RateLimitCategory::Orders => {
            assert(category_min_delay_millis(c) == 100);
        },
        RateLimitCategory::Standard => {
            assert(category_min_delay_millis(c) == 100);
        },
    }
}

/// A fresh limiter lets any request go at once.
pub proof fn lemma_fresh_never_waits(c: RateLimitCategory, now: u64)
    ensures
        CategoryLimiter::fresh(c).can_request_at(now),
        CategoryLimiter::fresh(c).delay_at(now) == 0,
{
}

} // verus!
