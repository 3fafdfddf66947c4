use kiteconnect::connect::reply::{api_error, error_details, session_access_token};
use kiteconnect::model::errors::KiteExceptionType;

#[test]
fn error_details_from_json() {
    let (m, t) = error_details(r#"{"status":"error","message":"Invalid token","error_type":"TokenException"}"#);
    assert_eq!(m, "Invalid token");
    assert_eq!(t, Some("TokenException".to_string()));
}

#[test]
fn error_details_from_plain_text() {
    let (m, t) = error_details("Bad Gateway");
    assert_eq!(m, "Bad Gateway");
    assert_eq!(t, None);
    let (m, t) = error_details(r#"{"message": 5}"#);
    assert_eq!(m, r#"{"message": 5}"#);
    assert_eq!(t, None);
}

#[test]
fn api_error_takes_the_named_type() {
    let e = api_error(403, r#"{"message":"Session expired","error_type":"TokenException"}"#);
    assert_eq!(e.exception_type, KiteExceptionType::TokenException);
    assert_eq!(e.message, "Session expired");
    assert_eq!(e.status_code, Some(403));
    assert!(e.requires_reauth);
    assert!(e.is_session_expired());
}

#[test]
fn api_error_follows_the_status_without_a_type() {
    let e = api_error(503, "Service Unavailable");
    assert_eq!(e.exception_type, KiteExceptionType::DataException);
    assert_eq!(e.message, "Service Unavailable");
    assert!(e.is_retryable);
    let e = api_error(429, "{}");
    assert_eq!(e.exception_type, KiteExceptionType::NetworkException);
    assert!(e.is_rate_limited);
    let e = api_error(400, r#"{"message":"bad","error_type":"SomethingNew"}"#);
    assert_eq!(e.exception_type, KiteExceptionType::Unknown("SomethingNew".to_string()));
}

#[test]
fn session_tokens_from_replies() {
    assert_eq!(
        session_access_token(r#"{"status":"success","data":{"access_token":"xyz","user_id":"AB1234"}}"#),
        Some("xyz".to_string())
    );
    assert_eq!(session_access_token(r#"{"data":{}}"#), None);
    assert_eq!(session_access_token("not json"), None);
    assert_eq!(session_access_token(r#"{"access_token":"new"}"#), None);
}

use kiteconnect::connect::KiteConnect;

#[test]
fn session_reply_sets_the_access_token() {
    let mut k = KiteConnect::new("key", "");
    assert!(k.apply_session_reply(r#"{"status":"success","data":{"access_token":"abc"}}"#));
    assert_eq!(k.access_token(), "abc");
    assert!(!k.apply_session_reply(r#"{"status":"error"}"#));
    assert_eq!(k.access_token(), "abc");
    assert!(!k.apply_renewal_reply(r#"{"access_token":"top"}"#));
    assert_eq!(k.access_token(), "abc");
    assert!(k.apply_renewal_reply(r#"{"status":"success","data":{"access_token":"def","refresh_token":"r"}}"#));
    assert_eq!(k.access_token(), "def");
    assert_eq!(k.authorization_header(), "token key:def");
}

use kiteconnect::connect::reply::{send_failure, server_error};

#[test]
fn errors_once_retries_stop() {
    let e = server_error(503, Some("down for maintenance"));
    assert_eq!(e.exception_type, KiteExceptionType::Unknown("ServerError".to_string()));
    assert_eq!(e.message, "down for maintenance");
    assert_eq!(e.status_code, Some(503));
    assert!(e.is_retryable && !e.is_rate_limited);
    let e = server_error(429, None);
    assert_eq!(e.message, "Unknown server error");
    assert!(e.is_rate_limited);
    let e = send_failure("connection refused".to_string());
    assert_eq!(e.exception_type, KiteExceptionType::NetworkException);
    assert_eq!(e.message, "connection refused");
    assert_eq!(e.status_code, None);
}

#[test]
fn api_error_flags() {
    let e = api_error(500, r#"{"message":"x","error_type":"InputException"}"#);
    assert!(e.is_retryable && !e.requires_reauth && !e.is_rate_limited);
    assert_eq!(e.data, None);
}
