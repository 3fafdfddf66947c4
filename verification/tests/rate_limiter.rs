use kiteconnect::connect::endpoints::{KiteEndpoint, RateLimitCategory};
use kiteconnect::connect::rate_limiter::{CategoryLimiter, CategoryStats, RateLimiter};

const MS: u64 = 1_000_000;
const START: u64 = 5_000 * MS;

#[test]
fn test_rate_limiter_basic_functionality() {
    let mut rate_limiter = RateLimiter::new(true);
    assert!(rate_limiter.can_request_immediately(&KiteEndpoint::Quote, START));
    let wait = rate_limiter.get_delay_for_request(&KiteEndpoint::Quote, START);
    assert!(wait < 10 * MS);
    rate_limiter.record_request(&KiteEndpoint::Quote, START + wait);
    assert!(!rate_limiter.can_request_immediately(&KiteEndpoint::Quote, START + wait));
    let delay = rate_limiter.get_delay_for_request(&KiteEndpoint::Quote, START + wait);
    assert!(delay > 900 * MS);
}

#[test]
fn test_rate_limiter_disabled() {
    let mut rate_limiter = RateLimiter::new(false);
    rate_limiter.record_request(&KiteEndpoint::Quote, START);
    assert!(rate_limiter.can_request_immediately(&KiteEndpoint::Quote, START));
    let delay = rate_limiter.get_delay_for_request(&KiteEndpoint::Quote, START);
    assert_eq!(delay, 0);
}

#[test]
fn test_different_categories() {
    let mut rate_limiter = RateLimiter::new(true);
    rate_limiter.record_request(&KiteEndpoint::Quote, START);
    assert!(rate_limiter.can_request_immediately(&KiteEndpoint::HistoricalData, START));
    assert!(rate_limiter.can_request_immediately(&KiteEndpoint::Holdings, START));
}

#[test]
fn test_rate_limiter_stats() {
    let mut rate_limiter = RateLimiter::new(true);
    rate_limiter.record_request(&KiteEndpoint::Quote, START);
    rate_limiter.record_request(&KiteEndpoint::Holdings, START);

    let stats = rate_limiter.get_stats();
    assert!(stats.enabled);

    let quote_stats = stats.category(RateLimitCategory::Quote).unwrap();
    assert_eq!(quote_stats.request_count, 1);
    assert_eq!(quote_stats.requests_per_second, 1);
    assert!(quote_stats.last_request.is_some());

    let standard_stats = stats.category(RateLimitCategory::Standard).unwrap();
    assert_eq!(standard_stats.request_count, 1);
    assert_eq!(standard_stats.requests_per_second, 10);
}

#[test]
fn test_category_stats() {
    let now = START;
    let stats = CategoryStats {
        request_count: 5,
        requests_per_second: 10,
        last_request: Some(now),
        next_available: Some(now + 100 * MS),
    };
    assert!(stats.is_at_limit(now));
    assert_eq!(stats.remaining_capacity(), 5);

    let stats_not_at_limit = CategoryStats {
        request_count: 3,
        requests_per_second: 10,
        last_request: Some(now - 1_000 * MS),
        next_available: Some(now - 100 * MS),
    };
    assert!(!stats_not_at_limit.is_at_limit(now));
    assert_eq!(stats_not_at_limit.remaining_capacity(), 7);
}

#[test]
fn delay_after_a_request_counts_down() {
    let mut l = CategoryLimiter::new(RateLimitCategory::Historical);
    assert_eq!(l.delay_until_next_request(START), 0);
    l.record_request(START);
    assert_eq!(l.delay_until_next_request(START), 333 * MS);
    assert_eq!(l.delay_until_next_request(START + 100 * MS), 233 * MS);
    assert_eq!(l.delay_until_next_request(START + 333 * MS), 0);
    assert!(l.can_request_now(START + 333 * MS));
    assert!(!l.can_request_now(START + 332 * MS));
}

#[test]
fn request_count_and_reset() {
    let mut l = CategoryLimiter::new(RateLimitCategory::Orders);
    l.record_request(START);
    l.record_request(START + 200 * MS);
    assert_eq!(l.request_count, 2);
    assert_eq!(l.last_request, Some(START + 200 * MS));
    l.reset_count();
    assert_eq!(l.request_count, 0);
}

#[test]
fn remaining_capacity_saturates_at_zero() {
    let stats = CategoryStats {
        request_count: 12,
        requests_per_second: 10,
        last_request: None,
        next_available: None,
    };
    assert_eq!(stats.remaining_capacity(), 0);
    assert!(!stats.is_at_limit(START));
}

#[test]
fn stats_list_every_category_in_order() {
    let mut r = RateLimiter::new(true);
    r.record_request(&KiteEndpoint::PlaceOrder, START);
    let stats = r.get_stats();
    let order: Vec<RateLimitCategory> = stats.categories.iter().map(|c| c.0).collect();
    assert_eq!(
        order,
        vec![
            RateLimitCategory::Quote,
            RateLimitCategory::Historical,
            RateLimitCategory::Orders,
            RateLimitCategory::Standard
        ]
    );
    let orders = stats.category(RateLimitCategory::Orders).unwrap();
    assert_eq!(orders.next_available, Some(START + 100 * MS));
    let quote = stats.category(RateLimitCategory::Quote).unwrap();
    assert_eq!(quote.last_request, None);
    assert_eq!(quote.next_available, None);
}

#[test]
fn toggling_the_limiter() {
    let mut r = RateLimiter::default();
    assert!(r.is_enabled());
    r.set_enabled(false);
    assert!(!r.is_enabled());
    r.record_request(&KiteEndpoint::Quote, START);
    r.set_enabled(true);
    assert!(r.can_request_immediately(&KiteEndpoint::Quote, START));
}

#[test]
fn reservations_are_spaced_by_the_minimum_delay() {
    let mut r = RateLimiter::new(true);
    assert_eq!(r.reserve(&KiteEndpoint::Quote, START), Some(0));
    assert_eq!(r.reserve(&KiteEndpoint::Quote, START), Some(1_000 * MS));
    assert_eq!(r.reserve(&KiteEndpoint::LTP, START + 10 * MS), Some(1_990 * MS));
    let stats = r.get_stats();
    let quote = stats.category(RateLimitCategory::Quote).unwrap();
    assert_eq!(quote.request_count, 3);
    assert_eq!(quote.last_request, Some(START + 2_000 * MS));
    assert_eq!(r.reserve(&KiteEndpoint::Holdings, START), Some(0));
    assert_eq!(r.reserve(&KiteEndpoint::Quote, START + 5_000 * MS), Some(0));
}

#[test]
fn reserving_when_disabled_waits_for_nothing() {
    let mut r = RateLimiter::new(false);
    assert_eq!(r.reserve(&KiteEndpoint::Quote, START), Some(0));
    assert_eq!(r.reserve(&KiteEndpoint::Quote, START), Some(0));
    assert_eq!(r.get_stats().category(RateLimitCategory::Quote).unwrap().request_count, 0);
}

#[test]
fn reserving_past_the_clock_range_records_nothing() {
    let mut r = RateLimiter::new(true);
    let end = kiteconnect::connect::rate_limiter::MAX_CLOCK_NANOS;
    assert_eq!(r.reserve(&KiteEndpoint::Quote, end), Some(0));
    assert_eq!(r.reserve(&KiteEndpoint::Quote, end), None);
    assert_eq!(r.get_stats().category(RateLimitCategory::Quote).unwrap().request_count, 1);
}
