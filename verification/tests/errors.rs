use kiteconnect::model::errors::{
    exception_category, KiteError, KiteExceptionType, KiteHttpStatus, RateLimitConstraints,
    RateLimitEndpoint,
};

#[test]
fn exception_names_round_trip() {
    let all = [
        KiteExceptionType::TokenException,
        KiteExceptionType::UserException,
        KiteExceptionType::OrderException,
        KiteExceptionType::InputException,
        KiteExceptionType::MarginException,
        KiteExceptionType::HoldingException,
        KiteExceptionType::NetworkException,
        KiteExceptionType::DataException,
        KiteExceptionType::GeneralException,
    ];
    for t in all {
        let name = t.to_string();
        assert_eq!(KiteExceptionType::from_name(&name), t);
    }
    assert_eq!(KiteExceptionType::TokenException.to_string(), "TokenException");
}

#[test]
fn unknown_exception_names_are_kept() {
    let t = KiteExceptionType::from_name("FooException");
    assert_eq!(t, KiteExceptionType::Unknown("FooException".to_string()));
    assert_eq!(t.to_string(), "FooException");
    assert_eq!(exception_category(&t), "Unknown");
}

#[test]
fn exception_categories() {
    assert_eq!(exception_category(&KiteExceptionType::TokenException), "Authentication");
    assert_eq!(exception_category(&KiteExceptionType::MarginException), "Insufficient Funds");
    assert_eq!(exception_category(&KiteExceptionType::DataException), "System");
    assert_eq!(exception_category(&KiteExceptionType::InputException), "Input Validation");
}

#[test]
fn status_codes_and_phrases() {
    assert_eq!(KiteHttpStatus::TooManyRequests.code(), 429);
    assert_eq!(KiteHttpStatus::TooManyRequests.reason_phrase(), "Too Many Requests");
    assert_eq!(KiteHttpStatus::TooManyRequests.to_string(), "429 Too Many Requests");
    assert_eq!(KiteHttpStatus::from_code(503), Some(KiteHttpStatus::ServiceUnavailable));
    assert_eq!(KiteHttpStatus::from_code(200), None);
    for code in [400u16, 403, 404, 405, 410, 429, 500, 502, 503, 504] {
        let s = KiteHttpStatus::from_code(code).unwrap();
        assert_eq!(s.code(), code);
        assert_ne!(s.is_client_error(), s.is_server_error());
    }
}

#[test]
fn status_flags() {
    assert!(KiteHttpStatus::Forbidden.requires_reauth());
    assert!(!KiteHttpStatus::BadRequest.requires_reauth());
    assert!(KiteHttpStatus::TooManyRequests.is_rate_limited());
    assert!(KiteHttpStatus::GatewayTimeout.is_server_error());
    assert!(KiteHttpStatus::Gone.is_client_error());
}

#[test]
fn rate_limit_defaults() {
    assert_eq!(RateLimitEndpoint::Quote.default_rate_limit(), 1);
    assert_eq!(RateLimitEndpoint::HistoricalCandle.default_rate_limit(), 3);
    assert_eq!(RateLimitEndpoint::OrderPlacement.default_rate_limit(), 10);
    assert_eq!(RateLimitEndpoint::Other.default_rate_limit(), 10);
    let c = RateLimitConstraints::default();
    assert_eq!(c.max_orders_per_minute, Some(200));
    assert_eq!(c.max_orders_per_second, Some(10));
    assert_eq!(c.max_orders_per_day, Some(3000));
    assert_eq!(c.max_modifications_per_order, Some(25));
}

#[test]
fn error_flags_follow_type_and_status() {
    let e = KiteError::new(KiteExceptionType::TokenException, "expired".to_string());
    assert!(e.requires_reauth);
    assert!(e.is_session_expired());
    assert!(!e.is_retryable);
    assert_eq!(e.status_code, None);

    let e = KiteError::new(KiteExceptionType::InputException, "bad".to_string()).with_status_code(429);
    assert!(e.is_rate_limited);
    assert!(!e.is_retryable);
    let e = KiteError::new(KiteExceptionType::InputException, "bad".to_string()).with_status_code(502);
    assert!(e.is_retryable);
    let e = KiteError::new(KiteExceptionType::OrderException, "x".to_string()).with_status_code(403);
    assert!(e.requires_reauth);
    assert_eq!(e.status_code, Some(403));
}

#[test]
fn error_display_form() {
    let e = KiteError::new(KiteExceptionType::MarginException, "Insufficient funds".to_string());
    assert_eq!(e.to_string(), "[Insufficient Funds] MarginException: Insufficient funds");
    assert_eq!(e.error_category(), "Insufficient Funds");
}

#[test]
fn error_data_is_attached() {
    let e = KiteError::new(KiteExceptionType::GeneralException, "x".to_string())
        .with_data(serde_json::Value::Bool(true));
    assert_eq!(e.data, Some(serde_json::Value::Bool(true)));
}
