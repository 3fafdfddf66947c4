use kiteconnect::connect::endpoints::{HttpMethod, KiteEndpoint, RateLimitCategory};
use std::time::Duration;

#[test]
fn test_rate_limit_categories() {
    assert_eq!(RateLimitCategory::Quote.requests_per_second(), 1);
    assert_eq!(RateLimitCategory::Historical.requests_per_second(), 3);
    assert_eq!(RateLimitCategory::Orders.requests_per_second(), 10);
    assert_eq!(RateLimitCategory::Standard.requests_per_second(), 10);
}

#[test]
fn test_endpoint_configuration() {
    let quote_endpoint = KiteEndpoint::Quote;
    let config = quote_endpoint.config();

    assert_eq!(config.method, HttpMethod::GET);
    assert_eq!(config.path, "/quote");
    assert_eq!(config.rate_limit_category, RateLimitCategory::Quote);
    assert!(config.requires_auth);
}

#[test]
fn test_build_path() {
    let endpoint = KiteEndpoint::OrderHistory;
    assert_eq!(endpoint.build_path(&[]), "/orders");
    assert_eq!(endpoint.build_path(&["order_123"]), "/orders/order_123");
    assert_eq!(
        endpoint.build_path(&["order_123", "trades"]),
        "/orders/order_123/trades"
    );
}

#[test]
fn test_endpoint_methods() {
    assert_eq!(KiteEndpoint::Quote.method(), HttpMethod::GET);
    assert_eq!(KiteEndpoint::PlaceOrder.method(), HttpMethod::POST);
    assert_eq!(KiteEndpoint::ModifyOrder.method(), HttpMethod::PUT);
    assert_eq!(KiteEndpoint::CancelOrder.method(), HttpMethod::DELETE);
}

#[test]
fn test_rate_limit_grouping() {
    let quote_endpoints = KiteEndpoint::by_rate_limit_category(RateLimitCategory::Quote);
    assert!(quote_endpoints.contains(&KiteEndpoint::Quote));
    assert!(quote_endpoints.contains(&KiteEndpoint::OHLC));
    assert!(quote_endpoints.contains(&KiteEndpoint::LTP));

    let historical_endpoints = KiteEndpoint::by_rate_limit_category(RateLimitCategory::Historical);
    assert!(historical_endpoints.contains(&KiteEndpoint::HistoricalData));

    let order_endpoints = KiteEndpoint::by_rate_limit_category(RateLimitCategory::Orders);
    assert!(order_endpoints.contains(&KiteEndpoint::PlaceOrder));
    assert!(order_endpoints.contains(&KiteEndpoint::ModifyOrder));
    assert!(order_endpoints.contains(&KiteEndpoint::CancelOrder));
}

#[test]
fn test_authentication_requirements() {
    assert!(!KiteEndpoint::LoginUrl.requires_auth());
    assert!(!KiteEndpoint::GenerateSession.requires_auth());
    assert!(KiteEndpoint::Profile.requires_auth());
    assert!(KiteEndpoint::Holdings.requires_auth());
    assert!(KiteEndpoint::PlaceOrder.requires_auth());
}

#[test]
fn test_min_delay_calculation() {
    assert_eq!(RateLimitCategory::Quote.min_delay(), Duration::from_millis(1000));
    assert_eq!(RateLimitCategory::Historical.min_delay(), Duration::from_millis(333));
    assert_eq!(RateLimitCategory::Orders.min_delay(), Duration::from_millis(100));
    assert_eq!(RateLimitCategory::Standard.min_delay(), Duration::from_millis(100));
}

#[test]
fn method_names_are_upper_case_verbs() {
    assert_eq!(HttpMethod::GET.as_str(), "GET");
    assert_eq!(HttpMethod::POST.as_str(), "POST");
    assert_eq!(HttpMethod::PUT.as_str(), "PUT");
    assert_eq!(HttpMethod::DELETE.as_str(), "DELETE");
}

#[test]
fn min_delay_millis_is_a_thousand_over_the_rate() {
    assert_eq!(RateLimitCategory::Quote.min_delay_millis(), 1000);
    assert_eq!(RateLimitCategory::Historical.min_delay_millis(), 333);
    assert_eq!(RateLimitCategory::Orders.min_delay_millis(), 100);
}

#[test]
fn category_lists_match_each_endpoint_category() {
    let cats = [
        RateLimitCategory::Quote,
        RateLimitCategory::Historical,
        RateLimitCategory::Orders,
        RateLimitCategory::Standard,
    ];
    for c in cats {
        let list = KiteEndpoint::by_rate_limit_category(c);
        for e in &list {
            assert_eq!(e.rate_limit_category(), c);
        }
        for (i, a) in list.iter().enumerate() {
            for b in list.iter().skip(i + 1) {
                assert_ne!(a, b);
            }
        }
    }
}

#[test]
fn every_endpoint_is_listed_under_its_category() {
    let standard = KiteEndpoint::by_rate_limit_category(RateLimitCategory::Standard);
    assert!(standard.contains(&KiteEndpoint::RenewAccessToken));
    assert!(standard.contains(&KiteEndpoint::InvalidateRefreshToken));
    let total: usize = [
        RateLimitCategory::Quote,
        RateLimitCategory::Historical,
        RateLimitCategory::Orders,
        RateLimitCategory::Standard,
    ]
    .iter()
    .map(|c| KiteEndpoint::by_rate_limit_category(*c).len())
    .sum();
    assert_eq!(total, 41);
}

#[test]
fn endpoint_new_keeps_its_parts() {
    let e = kiteconnect::connect::Endpoint::new(
        HttpMethod::POST,
        "/orders",
        RateLimitCategory::Orders,
        true,
    );
    assert_eq!(e.method, HttpMethod::POST);
    assert_eq!(e.path, "/orders");
    assert_eq!(e.rate_limit_category, RateLimitCategory::Orders);
    assert!(e.requires_auth);
}

#[test]
fn order_trades_path() {
    assert_eq!(
        KiteEndpoint::OrderTrades.build_path(&["171229000724687", "trades"]),
        "/orders/171229000724687/trades"
    );
    assert_eq!(KiteEndpoint::MFOrders.path(), "/mf/orders");
}
