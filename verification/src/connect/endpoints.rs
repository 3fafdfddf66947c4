//! Endpoint table of the KiteConnect API: HTTP method, base path, rate limit
//! category and authentication requirement of every endpoint.

use crate::text::join;
use std::time::Duration;
use vstd::prelude::*;

verus! {

/// HTTP method used by an endpoint.
#[derive(Debug, Clone, Copy, PartialEq, Eq, Hash, Structural)]
pub enum HttpMethod {
    /// Data retrieval.
    GET,
    /// Resource creation.
    POST,
    /// Resource update.
    PUT,
    /// Resource deletion.
    DELETE,
}

/// The name of an HTTP method as it goes on the wire.
pub open spec fn method_name(m: HttpMethod) -> Seq<char> {
    match m {
        HttpMethod::GET => "GET"@,
        HttpMethod::POST => "POST"@,
        HttpMethod::PUT => "PUT"@,
        HttpMethod::DELETE => "DELETE"@,
    }
}

impl HttpMethod {
    /// The method's name, e.g. `"GET"`.
    pub fn as_str(&self) -> (s: &'static str)
        ensures
            s@ == method_name(*self),
    {
        match self {
            HttpMethod::GET => "GET",
            HttpMethod::POST => "POST",
            HttpMethod::PUT => "PUT",
            HttpMethod::DELETE => "DELETE",
        }
    }
}

/// Rate limit category of an endpoint, after the API's published limits.
#[derive(Debug, Clone, Copy, PartialEq, Eq, Hash, Structural)]
pub enum RateLimitCategory {
    /// Quote endpoints: 1 request per second.
    Quote,
    /// Historical candle endpoints: 3 requests per second.
    Historical,
    /// Order placement endpoints: 10 requests per second.
    Orders,
    /// All other endpoints: 10 requests per second.
    Standard,
}

/// Requests per second allowed in a category.
pub open spec fn category_rps(c: RateLimitCategory) -> u32 {
    match c {
        RateLimitCategory::Quote => 1,
        RateLimitCategory::Historical => 3,
        RateLimitCategory::Orders => 10,
        RateLimitCategory::Standard => 10,
    }
}

/// Minimum spacing of two requests of a category, in milliseconds
/// (1000 divided by the requests per second, rounded down).
pub open spec fn category_min_delay_millis(c: RateLimitCategory) -> u64 {
    (1000u32 / category_rps(c)) as u64
}

/// The `Duration` that `Duration::from_millis` makes of a number of milliseconds.
pub uninterp spec fn duration_of_millis(ms: u64) -> Duration;

/// Calls `std::time::Duration::from_millis`, a pure constructor: its result is
/// the name `duration_of_millis` applied to the argument.
#[verifier::external_body]
fn duration_from_millis(ms: u64) -> (d: Duration)
    ensures
        d == duration_of_millis(ms),
{
    Duration::from_millis(ms)
}

impl RateLimitCategory {
    /// Maximum number of requests per second for this category.
    pub fn requests_per_second(&self) -> (r: u32)
        ensures
            r == category_rps(*self),
            r >= 1,
    {
        match self {
            RateLimitCategory::Quote => 1,
            RateLimitCategory::Historical => 3,
            RateLimitCategory::Orders => 10,
            RateLimitCategory::Standard => 10,
        }
    }

    /// Minimum delay between two requests of this category, in milliseconds.
    pub fn min_delay_millis(&self) -> (ms: u64)
        ensures
            ms == category_min_delay_millis(*self),
    {
        let rps = self.requests_per_second();
        1000 / (rps as u64)
    }

    /// Minimum delay between two requests of this category.
    pub fn min_delay(&self) -> (d: Duration)
        ensures
            d == duration_of_millis(category_min_delay_millis(*self)),
    {
        duration_from_millis(self.min_delay_millis())
    }
}

/// Configuration of one endpoint.
#[derive(Debug, Clone)]
pub struct Endpoint {
    /// HTTP method of the endpoint.
    pub method: HttpMethod,
    /// URL path of the endpoint, without dynamic segments.
    pub path: &'static str,
    /// Rate limit category of the endpoint.
    pub rate_limit_category: RateLimitCategory,
    /// Whether the endpoint needs an authenticated session.
    pub requires_auth: bool,
}

impl Endpoint {
    /// Builds an endpoint configuration from its four parts.
    pub fn new(
        method: HttpMethod,
        path: &'static str,
        rate_limit_category: RateLimitCategory,
        requires_auth: bool,
    ) -> (e: Self)
        ensures
            e.method == method,
            e.path == path,
            e.rate_limit_category == rate_limit_category,
            e.requires_auth == requires_auth,
    {
        Endpoint { method, path, rate_limit_category, requires_auth }
    }
}

/// Every endpoint of the KiteConnect API.
#[derive(Debug, Clone, Copy, PartialEq, Eq, Hash, Structural)]
pub enum KiteEndpoint {
    /// Login URL.
    LoginUrl,
    /// Session from a request token.
    GenerateSession,
    /// Session invalidation.
    InvalidateSession,
    /// Access token renewal.
    RenewAccessToken,
    /// Refresh token invalidation.
    InvalidateRefreshToken,
    /// User profile.
    Profile,
    /// User margins.
    Margins,
    /// Margins of one segment.
    MarginsSegment,
    /// Holdings.
    Holdings,
    /// Positions.
    Positions,
    /// Position conversion.
    ConvertPosition,
    /// Order placement.
    PlaceOrder,
    /// Order modification.
    ModifyOrder,
    /// Order cancellation.
    CancelOrder,
    /// All orders.
    Orders,
    /// History of one order.
    OrderHistory,
    /// All trades.
    Trades,
    /// Trades of one order.
    OrderTrades,
    /// Full quotes.
    Quote,
    /// OHLC quotes.
    OHLC,
    /// Last traded prices.
    LTP,
    /// Historical candles.
    HistoricalData,
    /// Instrument dump.
    Instruments,
    /// Mutual fund instrument dump.
    MFInstruments,
    /// Trigger ranges.
    TriggerRange,
    /// Market margins.
    MarketMargins,
    /// Mutual fund order placement.
    PlaceMFOrder,
    /// Mutual fund order cancellation.
    CancelMFOrder,
    /// Mutual fund orders.
    MFOrders,
    /// One mutual fund order.
    MFOrderInfo,
    /// Mutual fund holdings.
    MFHoldings,
    /// SIP placement.
    PlaceSIP,
    /// SIP modification.
    ModifySIP,
    /// SIP cancellation.
    CancelSIP,
    /// All SIPs.
    SIPs,
    /// One SIP.
    SIPInfo,
    /// GTT placement.
    PlaceGTT,
    /// GTT modification.
    ModifyGTT,
    /// GTT cancellation.
    CancelGTT,
    /// All GTTs.
    GTTs,
    /// One GTT.
    GTTInfo,
}

/// HTTP method of an endpoint.
pub open spec fn endpoint_method(e: KiteEndpoint) -> HttpMethod {
    match e {
        KiteEndpoint::LoginUrl => HttpMethod::GET,
        KiteEndpoint::GenerateSession => HttpMethod::POST,
        KiteEndpoint::InvalidateSession => HttpMethod::DELETE,
        KiteEndpoint::RenewAccessToken => HttpMethod::POST,
        KiteEndpoint::InvalidateRefreshToken => HttpMethod::DELETE,
        KiteEndpoint::ConvertPosition => HttpMethod::PUT,
        KiteEndpoint::PlaceOrder => HttpMethod::POST,
        KiteEndpoint::ModifyOrder => HttpMethod::PUT,
        KiteEndpoint::CancelOrder => HttpMethod::DELETE,
        KiteEndpoint::PlaceMFOrder => HttpMethod::POST,
        KiteEndpoint::CancelMFOrder => HttpMethod::DELETE,
        KiteEndpoint::PlaceSIP => HttpMethod::POST,
        KiteEndpoint::ModifySIP => HttpMethod::PUT,
        KiteEndpoint::CancelSIP => HttpMethod::DELETE,
        KiteEndpoint::PlaceGTT => HttpMethod::POST,
        KiteEndpoint::ModifyGTT => HttpMethod::PUT,
        KiteEndpoint::CancelGTT => HttpMethod::DELETE,
        _ => HttpMethod::GET,
    }
}

/// Base path of an endpoint.
pub open spec fn endpoint_path(e: KiteEndpoint) -> Seq<char> {
    match e {
        KiteEndpoint::LoginUrl => "/connect/login"@,
        KiteEndpoint::GenerateSession => "/session/token"@,
        KiteEndpoint::InvalidateSession => "/session/token"@,
        KiteEndpoint::RenewAccessToken => "/session/refresh_token"@,
        KiteEndpoint::InvalidateRefreshToken => "/session/refresh_token"@,
        KiteEndpoint::Profile => "/user/profile"@,
        KiteEndpoint::Margins => "/user/margins"@,
        KiteEndpoint::MarginsSegment => "/user/margins"@,
        KiteEndpoint::Holdings => "/portfolio/holdings"@,
        KiteEndpoint::Positions => "/portfolio/positions"@,
        KiteEndpoint::ConvertPosition => "/portfolio/positions"@,
        KiteEndpoint::PlaceOrder => "/orders"@,
        KiteEndpoint::ModifyOrder => "/orders"@,
        KiteEndpoint::CancelOrder => "/orders"@,
        KiteEndpoint::Orders => "/orders"@,
        KiteEndpoint::OrderHistory => "/orders"@,
        KiteEndpoint::Trades => "/trades"@,
        KiteEndpoint::OrderTrades => "/orders"@,
        KiteEndpoint::Quote => "/quote"@,
        KiteEndpoint::OHLC => "/quote/ohlc"@,
        KiteEndpoint::LTP => "/quote/ltp"@,
        KiteEndpoint::HistoricalData => "/instruments/historical"@,
        KiteEndpoint::Instruments => "/instruments"@,
        KiteEndpoint::MFInstruments => "/mf/instruments"@,
        KiteEndpoint::TriggerRange => "/instruments/trigger_range"@,
        KiteEndpoint::MarketMargins => "/margins"@,
        KiteEndpoint::PlaceMFOrder => "/mf/orders"@,
        KiteEndpoint::CancelMFOrder => "/mf/orders"@,
        KiteEndpoint::MFOrders => "/mf/orders"@,
        KiteEndpoint::MFOrderInfo => "/mf/orders"@,
        KiteEndpoint::MFHoldings => "/mf/holdings"@,
        KiteEndpoint::PlaceSIP => "/mf/sips"@,
        KiteEndpoint::ModifySIP => "/mf/sips"@,
        KiteEndpoint::CancelSIP => "/mf/sips"@,
        KiteEndpoint::SIPs => "/mf/sips"@,
        KiteEndpoint::SIPInfo => "/mf/sips"@,
        KiteEndpoint::PlaceGTT => "/gtt/triggers"@,
        KiteEndpoint::ModifyGTT => "/gtt/triggers"@,
        KiteEndpoint::CancelGTT => "/gtt/triggers"@,
        KiteEndpoint::GTTs => "/gtt/triggers"@,
        KiteEndpoint::GTTInfo => "/gtt/triggers"@,
    }
}

/// Rate limit category of an endpoint.
pub open spec fn endpoint_category(e: KiteEndpoint) -> RateLimitCategory {
    match e {
        KiteEndpoint::PlaceOrder => RateLimitCategory::Orders,
        KiteEndpoint::ModifyOrder => RateLimitCategory::Orders,
        KiteEndpoint::CancelOrder => RateLimitCategory::Orders,
        KiteEndpoint::Quote => RateLimitCategory::Quote,
        KiteEndpoint::OHLC => RateLimitCategory::Quote,
        KiteEndpoint::LTP => RateLimitCategory::Quote,
        KiteEndpoint::HistoricalData => RateLimitCategory::Historical,
        KiteEndpoint::PlaceMFOrder => RateLimitCategory::Orders,
        KiteEndpoint::CancelMFOrder => RateLimitCategory::Orders,
        KiteEndpoint::PlaceSIP => RateLimitCategory::Orders,
        KiteEndpoint::ModifySIP => RateLimitCategory::Orders,
        KiteEndpoint::CancelSIP => RateLimitCategory::Orders,
        KiteEndpoint::PlaceGTT => RateLimitCategory::Orders,
        KiteEndpoint::ModifyGTT => RateLimitCategory::Orders,
        KiteEndpoint::CancelGTT => RateLimitCategory::Orders,
        _ => RateLimitCategory::Standard,
    }
}

/// Whether an endpoint needs an authenticated session: all but the login
/// page and the session exchange.
pub open spec fn endpoint_requires_auth(e: KiteEndpoint) -> bool {
    !(e == KiteEndpoint::LoginUrl || e == KiteEndpoint::GenerateSession)
}

/// Every endpoint, in the order in which `by_rate_limit_category` searches
/// them.
pub open spec fn listed_endpoints() -> Seq<KiteEndpoint> {
    seq![
        KiteEndpoint::LoginUrl,
        KiteEndpoint::GenerateSession,
        KiteEndpoint::InvalidateSession,
        KiteEndpoint::RenewAccessToken,
        KiteEndpoint::InvalidateRefreshToken,
        KiteEndpoint::Profile,
        KiteEndpoint::Margins,
        KiteEndpoint::MarginsSegment,
        KiteEndpoint::Holdings,
        KiteEndpoint::Positions,
        KiteEndpoint::ConvertPosition,
        KiteEndpoint::PlaceOrder,
        KiteEndpoint::ModifyOrder,
        KiteEndpoint::CancelOrder,
        KiteEndpoint::Orders,
        KiteEndpoint::OrderHistory,
        KiteEndpoint::Trades,
        KiteEndpoint::OrderTrades,
        KiteEndpoint::Quote,
        KiteEndpoint::OHLC,
        KiteEndpoint::LTP,
        KiteEndpoint::HistoricalData,
        KiteEndpoint::Instruments,
        KiteEndpoint::MFInstruments,
        KiteEndpoint::TriggerRange,
        KiteEndpoint::MarketMargins,
        KiteEndpoint::PlaceMFOrder,
        KiteEndpoint::CancelMFOrder,
        KiteEndpoint::MFOrders,
        KiteEndpoint::MFOrderInfo,
        KiteEndpoint::MFHoldings,
        KiteEndpoint::PlaceSIP,
        KiteEndpoint::ModifySIP,
        KiteEndpoint::CancelSIP,
        KiteEndpoint::SIPs,
        KiteEndpoint::SIPInfo,
        KiteEndpoint::PlaceGTT,
        KiteEndpoint::ModifyGTT,
        KiteEndpoint::CancelGTT,
        KiteEndpoint::GTTs,
        KiteEndpoint::GTTInfo,
    ]
}

/// The listed endpoints of one category, in list order.
pub open spec fn endpoints_in_category(c: RateLimitCategory) -> Seq<KiteEndpoint> {
    listed_endpoints().filter(|e: KiteEndpoint| endpoint_category(e) == c)
}

/// A path with dynamic segments appended, each after a `/`.
pub open spec fn path_with_segments(base: Seq<char>, segments: Seq<Seq<char>>) -> Seq<char>
    decreases segments.len(),
{
    if segments.len() == 0 {
        base
    } else {
        path_with_segments(base, segments.drop_last()) + "/"@ + segments.last()
    }
}

impl KiteEndpoint {
    /// Configuration of this endpoint.
    pub fn config(&self) -> (c: Endpoint)
        ensures
            c.method == endpoint_method(*self),
            c.path@ == endpoint_path(*self),
            c.rate_limit_category == endpoint_category(*self),
            c.requires_auth == endpoint_requires_auth(*self),
    {
        match self {
            KiteEndpoint::LoginUrl => Endpoint::new(
                HttpMethod::GET,
                "/connect/login",
                RateLimitCategory::Standard,
                false,
            ),
            KiteEndpoint::GenerateSession => Endpoint::new(
                HttpMethod::POST,
                "/session/token",
                RateLimitCategory::Standard,
                false,
            ),
            KiteEndpoint::InvalidateSession => Endpoint::new(
                HttpMethod::DELETE,
                "/session/token",
                RateLimitCategory::Standard,
                true,
            ),
            KiteEndpoint::RenewAccessToken => Endpoint::new(
                HttpMethod::POST,
                "/session/refresh_token",
                RateLimitCategory::Standard,
                true,
            ),
            KiteEndpoint::InvalidateRefreshToken => Endpoint::new(
                HttpMethod::DELETE,
                "/session/refresh_token",
                RateLimitCategory::Standard,
                true,
            ),
            KiteEndpoint::Profile => Endpoint::new(
                HttpMethod::GET,
                "/user/profile",
                RateLimitCategory::Standard,
                true,
            ),
            KiteEndpoint::Margins => Endpoint::new(
                HttpMethod::GET,
                "/user/margins",
                RateLimitCategory::Standard,
                true,
            ),
            KiteEndpoint::MarginsSegment => Endpoint::new(
                HttpMethod::GET,
                "/user/margins",
                RateLimitCategory::Standard,
                true,
            ),
            KiteEndpoint::Holdings => Endpoint::new(
                HttpMethod::GET,
                "/portfolio/holdings",
                RateLimitCategory::Standard,
                true,
            ),
            KiteEndpoint::Positions => Endpoint::new(
                HttpMethod::GET,
                "/portfolio/positions",
                RateLimitCategory::Standard,
                true,
            ),
            KiteEndpoint::ConvertPosition => Endpoint::new(
                HttpMethod::PUT,
                "/portfolio/positions",
                RateLimitCategory::Standard,
                true,
            ),
            KiteEndpoint::PlaceOrder => Endpoint::new(
                HttpMethod::POST,
                "/orders",
                RateLimitCategory::Orders,
                true,
            ),
            KiteEndpoint::ModifyOrder => Endpoint::new(
                HttpMethod::PUT,
                "/orders",
                RateLimitCategory::Orders,
                true,
            ),
            KiteEndpoint::CancelOrder => Endpoint::new(
                HttpMethod::DELETE,
                "/orders",
                RateLimitCategory::Orders,
                true,
            ),
            KiteEndpoint::Orders => Endpoint::new(
                HttpMethod::GET,
                "/orders",
                RateLimitCategory::Standard,
                true,
            ),
            KiteEndpoint::OrderHistory => Endpoint::new(
                HttpMethod::GET,
                "/orders",
                RateLimitCategory::Standard,
                true,
            ),
            KiteEndpoint::Trades => Endpoint::new(
                HttpMethod::GET,
                "/trades",
                RateLimitCategory::Standard,
                true,
            ),
            KiteEndpoint::OrderTrades => Endpoint::new(
                HttpMethod::GET,
                "/orders",
                RateLimitCategory::Standard,
                true,
            ),
            KiteEndpoint::Quote => Endpoint::new(
                HttpMethod::GET,
                "/quote",
                RateLimitCategory::Quote,
                true,
            ),
            KiteEndpoint::OHLC => Endpoint::new(
                HttpMethod::GET,
                "/quote/ohlc",
                RateLimitCategory::Quote,
                true,
            ),
            KiteEndpoint::LTP => Endpoint::new(
                HttpMethod::GET,
                "/quote/ltp",
                RateLimitCategory::Quote,
                true,
            ),
            KiteEndpoint::HistoricalData => Endpoint::new(
                HttpMethod::GET,
                "/instruments/historical",
                RateLimitCategory::Historical,
                true,
            ),
            KiteEndpoint::Instruments => Endpoint::new(
                HttpMethod::GET,
                "/instruments",
                RateLimitCategory::Standard,
                true,
            ),
            KiteEndpoint::MFInstruments => Endpoint::new(
                HttpMethod::GET,
                "/mf/instruments",
                RateLimitCategory::Standard,
                true,
            ),
            KiteEndpoint::TriggerRange => Endpoint::new(
                HttpMethod::GET,
                "/instruments/trigger_range",
                RateLimitCategory::Standard,
                true,
            ),
            KiteEndpoint::MarketMargins => Endpoint::new(
                HttpMethod::GET,
                "/margins",
                RateLimitCategory::Standard,
                true,
            ),
            KiteEndpoint::PlaceMFOrder => Endpoint::new(
                HttpMethod::POST,
                "/mf/orders",
                RateLimitCategory::Orders,
                true,
            ),
            KiteEndpoint::CancelMFOrder => Endpoint::new(
                HttpMethod::DELETE,
                "/mf/orders",
                RateLimitCategory::Orders,
                true,
            ),
            KiteEndpoint::MFOrders => Endpoint::new(
                HttpMethod::GET,
                "/mf/orders",
                RateLimitCategory::Standard,
                true,
            ),
            KiteEndpoint::MFOrderInfo => Endpoint::new(
                HttpMethod::GET,
                "/mf/orders",
                RateLimitCategory::Standard,
                true,
            ),
            KiteEndpoint::MFHoldings => Endpoint::new(
                HttpMethod::GET,
                "/mf/holdings",
                RateLimitCategory::Standard,
                true,
            ),
            KiteEndpoint::PlaceSIP => Endpoint::new(
                HttpMethod::POST,
                "/mf/sips",
                RateLimitCategory::Orders,
                true,
            ),
            KiteEndpoint::ModifySIP => Endpoint::new(
                HttpMethod::PUT,
                "/mf/sips",
                RateLimitCategory::Orders,
                true,
            ),
            KiteEndpoint::CancelSIP => Endpoint::new(
                HttpMethod::DELETE,
                "/mf/sips",
                RateLimitCategory::Orders,
                true,
            ),
            KiteEndpoint::SIPs => Endpoint::new(
                HttpMethod::GET,
                "/mf/sips",
                RateLimitCategory::Standard,
                true,
            ),
            KiteEndpoint::SIPInfo => Endpoint::new(
                HttpMethod::GET,
                "/mf/sips",
                RateLimitCategory::Standard,
                true,
            ),
            KiteEndpoint::PlaceGTT => Endpoint::new(
                HttpMethod::POST,
                "/gtt/triggers",
                RateLimitCategory::Orders,
                true,
            ),
            KiteEndpoint::ModifyGTT => Endpoint::new(
                HttpMethod::PUT,
                "/gtt/triggers",
                RateLimitCategory::Orders,
                true,
            ),
            KiteEndpoint::CancelGTT => Endpoint::new(
                HttpMethod::DELETE,
                "/gtt/triggers",
                RateLimitCategory::Orders,
                true,
            ),
            KiteEndpoint::GTTs => Endpoint::new(
                HttpMethod::GET,
                "/gtt/triggers",
                RateLimitCategory::Standard,
                true,
            ),
            KiteEndpoint::GTTInfo => Endpoint::new(
                HttpMethod::GET,
                "/gtt/triggers",
                RateLimitCategory::Standard,
                true,
            ),
        }
    }

    /// HTTP method of this endpoint.
    pub fn method(&self) -> (m: HttpMethod)
        ensures
            m == endpoint_method(*self),
    {
        self.config().method
    }

    /// Base path of this endpoint.
    pub fn path(&self) -> (p: &'static str)
        ensures
            p@ == endpoint_path(*self),
    {
        self.config().path
    }

    /// Rate limit category of this endpoint.
    pub fn rate_limit_category(&self) -> (c: RateLimitCategory)
        ensures
            c == endpoint_category(*self),
            (c == RateLimitCategory::Orders) <==> writes_orders(*self),
    {
        proof {
            lemma_orders_category_is_order_writes(*self);
        }
        self.config().rate_limit_category
    }

    /// Whether this endpoint needs an authenticated session.
    pub fn requires_auth(&self) -> (b: bool)
        ensures
            b == endpoint_requires_auth(*self),
    {
        self.config().requires_auth
    }

    /// The base path of this endpoint followed by each dynamic segment, each
    /// after a `/`; the base path alone when there are no segments.
    pub fn build_path(&self, segments: &[&str]) -> (p: String)
        ensures
            p@ == path_with_segments(
                endpoint_path(*self),
                segments@.map_values(|s: &str| s@),
            ),
    {
        let ghost segs = segments@.map_values(|s: &str| s@);
        let mut out = String::from_str(self.path());
        let mut i: usize = 0;
        while i < segments.len()
            invariant
                0 <= i <= segments@.len(),
                segs == segments@.map_values(|s: &str| s@),
                out@ == path_with_segments(endpoint_path(*self), segs.take(i as int)),
            decreases segments@.len() - i,
        {
            out.append("/");
            out.append(segments[i]);
            assert(segs.take(i as int + 1).drop_last() =~= segs.take(i as int));
            i = i + 1;
        }
        assert(segs.take(segments@.len() as int) =~= segs);
        out
    }

    /// All endpoints whose rate limit category is `category`, each once, in
    /// the order of the endpoint list.
    pub fn by_rate_limit_category(category: RateLimitCategory) -> (v: Vec<KiteEndpoint>)
        ensures
            v@ == endpoints_in_category(category),
            forall|e: KiteEndpoint| v@.contains(e) <==> endpoint_category(e) == category,
            v@.no_duplicates(),
    {
        let all_endpoints = vec![
            KiteEndpoint::LoginUrl,
            KiteEndpoint::GenerateSession,
            KiteEndpoint::InvalidateSession,
            KiteEndpoint::RenewAccessToken,
            KiteEndpoint::InvalidateRefreshToken,
            KiteEndpoint::Profile,
            KiteEndpoint::Margins,
            KiteEndpoint::MarginsSegment,
            KiteEndpoint::Holdings,
            KiteEndpoint::Positions,
            KiteEndpoint::ConvertPosition,
            KiteEndpoint::PlaceOrder,
            KiteEndpoint::ModifyOrder,
            KiteEndpoint::CancelOrder,
            KiteEndpoint::Orders,
            KiteEndpoint::OrderHistory,
            KiteEndpoint::Trades,
            KiteEndpoint::OrderTrades,
            KiteEndpoint::Quote,
            KiteEndpoint::OHLC,
            KiteEndpoint::LTP,
            KiteEndpoint::HistoricalData,
            KiteEndpoint::Instruments,
            KiteEndpoint::MFInstruments,
            KiteEndpoint::TriggerRange,
            KiteEndpoint::MarketMargins,
            KiteEndpoint::PlaceMFOrder,
            KiteEndpoint::CancelMFOrder,
            KiteEndpoint::MFOrders,
            KiteEndpoint::MFOrderInfo,
            KiteEndpoint::MFHoldings,
            KiteEndpoint::PlaceSIP,
            KiteEndpoint::ModifySIP,
            KiteEndpoint::CancelSIP,
            KiteEndpoint::SIPs,
            KiteEndpoint::SIPInfo,
            KiteEndpoint::PlaceGTT,
            KiteEndpoint::ModifyGTT,
            KiteEndpoint::CancelGTT,
            KiteEndpoint::GTTs,
            KiteEndpoint::GTTInfo,
        ];
        assert(all_endpoints@ =~= listed_endpoints());
        let ghost pred = |e: KiteEndpoint| endpoint_category(e) == category;
        let mut result: Vec<KiteEndpoint> = Vec::new();
        let mut i: usize = 0;
        while i < all_endpoints.len()
            invariant
                0 <= i <= all_endpoints@.len(),
                all_endpoints@ == listed_endpoints(),
                pred == (|e: KiteEndpoint| endpoint_category(e) == category),
                result@ == all_endpoints@.take(i as int).filter(pred),
            decreases all_endpoints@.len() - i,
        {
            reveal_with_fuel(Seq::<_>::filter, 1);
            let endpoint = all_endpoints[i];
            assert(all_endpoints@.take(i as int + 1).drop_last() =~= all_endpoints@.take(i as int));
            if endpoint.rate_limit_category() == category {
                result.push(endpoint);
            }
            i = i + 1;
        }
        assert(all_endpoints@.take(all_endpoints@.len() as int) =~= all_endpoints@);
        proof {
            lemma_category_lists_unique(category);
            assert forall|e: KiteEndpoint|
                result@.contains(e) <==> endpoint_category(e) == category by {
                lemma_category_membership(category, e);
            }
        }
        result
    }
}


/// Position of an endpoint in the list that `by_rate_limit_category` searches.
spec fn listed_position(e: KiteEndpoint) -> int {
    match e {
        KiteEndpoint::LoginUrl => 0,
        KiteEndpoint::GenerateSession => 1,
        KiteEndpoint::InvalidateSession => 2,
        KiteEndpoint::RenewAccessToken => 3,
        KiteEndpoint::Profile => 5,
        KiteEndpoint::Margins => 6,
        KiteEndpoint::MarginsSegment => 7,
        KiteEndpoint::Holdings => 8,
        KiteEndpoint::Positions => 9,
        KiteEndpoint::ConvertPosition => 10,
        KiteEndpoint::PlaceOrder => 11,
        KiteEndpoint::ModifyOrder => 12,
        KiteEndpoint::CancelOrder => 13,
        KiteEndpoint::Orders => 14,
        KiteEndpoint::OrderHistory => 15,
        KiteEndpoint::Trades => 16,
        KiteEndpoint::OrderTrades => 17,
        KiteEndpoint::Quote => 18,
        KiteEndpoint::OHLC => 19,
        KiteEndpoint::LTP => 20,
        KiteEndpoint::HistoricalData => 21,
        KiteEndpoint::Instruments => 22,
        KiteEndpoint::MFInstruments => 23,
        KiteEndpoint::TriggerRange => 24,
        KiteEndpoint::MarketMargins => 25,
        KiteEndpoint::PlaceMFOrder => 26,
        KiteEndpoint::CancelMFOrder => 27,
        KiteEndpoint::MFOrders => 28,
        KiteEndpoint::MFOrderInfo => 29,
        KiteEndpoint::MFHoldings => 30,
        KiteEndpoint::PlaceSIP => 31,
        KiteEndpoint::ModifySIP => 32,
        KiteEndpoint::CancelSIP => 33,
        KiteEndpoint::SIPs => 34,
        KiteEndpoint::SIPInfo => 35,
        KiteEndpoint::PlaceGTT => 36,
        KiteEndpoint::ModifyGTT => 37,
        KiteEndpoint::CancelGTT => 38,
        KiteEndpoint::GTTs => 39,
        KiteEndpoint::GTTInfo => 40,
        KiteEndpoint::InvalidateRefreshToken => 4,
    }
}

proof fn lemma_listed_position(e: KiteEndpoint)
    ensures
        0 <= listed_position(e) < listed_endpoints().len(),
        listed_endpoints()[listed_position(e)] == e,
        listed_endpoints().contains(e),
{
    assert(listed_endpoints()[listed_position(e)] == e);
}

/// An endpoint is in the list of a rate limit category exactly when it has
/// that category.
pub proof fn lemma_category_membership(c: RateLimitCategory, e: KiteEndpoint)
    ensures
        endpoints_in_category(c).contains(e) <==> endpoint_category(e) == c,
{
    let pred = |x: KiteEndpoint| endpoint_category(x) == c;
    lemma_listed_position(e);
    if endpoint_category(e) == c {
        listed_endpoints().lemma_filter_contains(pred, listed_position(e));
    }
    if endpoints_in_category(c).contains(e) {
        listed_endpoints().lemma_filter_contains_rev(pred, e);
        let k = choose|k: int| 0 <= k < endpoints_in_category(c).len()
            && endpoints_in_category(c)[k] == e;
        listed_endpoints().lemma_filter_pred(pred, k);
    }
}

/// The lists of the categories hold no endpoint twice.
pub proof fn lemma_category_lists_unique(c: RateLimitCategory)
    ensures
        endpoints_in_category(c).no_duplicates(),
{
    let pred = |x: KiteEndpoint| endpoint_category(x) == c;
    assert(listed_endpoints().no_duplicates()) by {
        assert forall|i: int, j: int|
            0 <= i < listed_endpoints().len() && 0 <= j < listed_endpoints().len() && i != j
            implies listed_endpoints()[i] != listed_endpoints()[j] by {
            lemma_listed_position(listed_endpoints()[i]);
            lemma_listed_position(listed_endpoints()[j]);
        }
    }
    lemma_filter_no_duplicates(listed_endpoints(), pred);
}

proof fn lemma_filter_no_duplicates(s: Seq<KiteEndpoint>, pred: spec_fn(KiteEndpoint) -> bool)
    requires
        s.no_duplicates(),
    ensures
        s.filter(pred).no_duplicates(),
    decreases s.len(),
{
    reveal_with_fuel(Seq::<_>::filter, 1);
    if s.len() > 0 {
        let t = s.drop_last();
        assert(t.no_duplicates());
        lemma_filter_no_duplicates(t, pred);
        let ft = t.filter(pred);
        if pred(s.last()) {
            assert(!t.contains(s.last()));
            if ft.contains(s.last()) {
                t.lemma_filter_contains_rev(pred, s.last());
            }
            assert(s.filter(pred) == ft.push(s.last()));
            assert forall|i: int, j: int|
                0 <= i < ft.len() + 1 && 0 <= j < ft.len() + 1 && i != j
                implies ft.push(s.last())[i] != ft.push(s.last())[j] by {
                if i < ft.len() && j < ft.len() {
                } else if i == ft.len() {
                    assert(ft[j] != s.last());
                } else {
                    assert(ft[i] != s.last());
                }
            }
        }
    }
}

/// The minimum delay of a category spaces its requests at no more than its
/// requests per second: `rps * delay <= 1000 < rps * (delay + 1)`.
pub proof fn lemma_min_delay_matches_rate(c: RateLimitCategory)
    ensures
        category_rps(c) * category_min_delay_millis(c) <= 1000,
        1000 < category_rps(c) * (category_min_delay_millis(c) + 1),
{
    match c {
        RateLimitCategory::Quote => {
            assert(category_rps(c) == 1);
            assert(category_min_delay_millis(c) == 1000);
        },
        RateLimitCategory::Historical => {
            assert(category_min_delay_millis(c) == 333);
        },
        RateLimitCategory::Orders => {
            assert(category_min_delay_millis(c) == 100);
        },
        RateLimitCategory::Standard => {
            assert(category_min_delay_millis(c) == 100);
        },
    }
}

/// Whether an endpoint writes to the order book, mutual fund orders, SIPs or
/// GTTs: places, modifies or cancels one of them.
pub open spec fn writes_orders(e: KiteEndpoint) -> bool {
    endpoint_method(e) != HttpMethod::GET && (endpoint_path(e) == "/orders"@ || endpoint_path(e)
        == "/mf/orders"@ || endpoint_path(e) == "/mf/sips"@ || endpoint_path(e)
        == "/gtt/triggers"@)
}

/// The order limiter is shared by exactly the endpoints that place, modify or
/// cancel orders, mutual fund orders, SIPs and GTTs. No read is among them:
/// listing the order book, an order's history or trades is a standard
/// request, and so are the session and position writes.
pub proof fn lemma_orders_category_is_order_writes(e: KiteEndpoint)
    ensures
        (endpoint_category(e) == RateLimitCategory::Orders) <==> writes_orders(e),
        (endpoint_category(e) == RateLimitCategory::Orders) <==> (e == KiteEndpoint::PlaceOrder
            || e == KiteEndpoint::ModifyOrder || e == KiteEndpoint::CancelOrder || e
            == KiteEndpoint::PlaceMFOrder || e == KiteEndpoint::CancelMFOrder || e
            == KiteEndpoint::PlaceSIP || e == KiteEndpoint::ModifySIP || e
            == KiteEndpoint::CancelSIP || e == KiteEndpoint::PlaceGTT || e
            == KiteEndpoint::ModifyGTT || e == KiteEndpoint::CancelGTT),
        endpoint_method(e) == HttpMethod::GET ==> endpoint_category(e)
            != RateLimitCategory::Orders,
{
    reveal_strlit("/orders");
    reveal_strlit("/mf/orders");
    reveal_strlit("/mf/sips");
    reveal_strlit("/gtt/triggers");
    reveal_strlit("/session/token");
    reveal_strlit("/session/refresh_token");
    reveal_strlit("/portfolio/positions");
    assert("/session/token"@[1] == 's');
    assert("/session/refresh_token"@[1] == 's');
    assert("/portfolio/positions"@[1] == 'p');
    assert("/orders"@[1] == 'o');
    assert("/mf/orders"@[1] == 'm');
    assert("/mf/sips"@[1] == 'm');
    assert("/gtt/triggers"@[1] == 'g');
}

/// The quote limiter is shared by the three quote reads (full quotes, OHLC
/// and last traded prices), whose paths lie under `/quote`; the historical
/// limiter serves the candle endpoint alone.
pub proof fn lemma_quote_and_historical_categories(e: KiteEndpoint)
    ensures
        (endpoint_category(e) == RateLimitCategory::Quote) <==> (e == KiteEndpoint::Quote || e
            == KiteEndpoint::OHLC || e == KiteEndpoint::LTP),
        endpoint_category(e) == RateLimitCategory::Quote ==> endpoint_method(e) == HttpMethod::GET
            && "/quote"@.is_prefix_of(endpoint_path(e)),
        (endpoint_category(e) == RateLimitCategory::Historical) <==> e
            == KiteEndpoint::HistoricalData,
{
    reveal_strlit("/quote");
    reveal_strlit("/quote/ohlc");
    reveal_strlit("/quote/ltp");
}

/// With segments, the path is the base path, a `/` and the segments joined
/// with `/`: the `"{path}/{segments joined}"` form of building a path.
pub proof fn lemma_path_with_segments_is_join(base: Seq<char>, segments: Seq<Seq<char>>)
    requires
        segments.len() > 0,
    ensures
        path_with_segments(base, segments) == base + "/"@ + join(segments, "/"@),
    decreases segments.len(),
{
    if segments.len() > 1 {
        lemma_path_with_segments_is_join(base, segments.drop_last());
        assert(path_with_segments(base, segments) == base + "/"@ + join(segments.drop_last(), "/"@)
            + "/"@ + segments.last());
        assert(base + "/"@ + join(segments.drop_last(), "/"@) + "/"@ + segments.last() =~= base
            + "/"@ + (join(segments.drop_last(), "/"@) + "/"@ + segments.last()));
    } else {
        assert(path_with_segments(base, segments.drop_last()) == base);
    }
}

} // verus!
