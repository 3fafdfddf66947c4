use kiteconnect::model::errors::{KiteError, KiteExceptionType};
use kiteconnect::model::response::{ApiResponse, KiteErrorResponse};

#[test]
fn success_and_error_responses() {
    let ok: ApiResponse<u32> = ApiResponse::success(7);
    assert!(ok.is_success());
    assert!(!ok.is_error());
    assert_eq!(ok.error_details(), None);
    assert_eq!(ok.into_result().unwrap(), 7);

    let err: ApiResponse<u32> =
        ApiResponse::error_from_parts(KiteExceptionType::NetworkException, "down".to_string());
    assert!(err.is_error());
    assert!(err.is_retryable());
    assert!(!err.is_session_expired());
    let (t, m) = err.error_details().unwrap();
    assert_eq!(t, KiteExceptionType::NetworkException);
    assert_eq!(m, "down");
    let e = err.into_result_with_status(502).unwrap_err();
    assert_eq!(e.status_code, Some(502));
    assert!(e.is_retryable);
}

#[test]
fn error_response_from_error() {
    let e = KiteError::new(KiteExceptionType::TokenException, "expired".to_string());
    let r = KiteErrorResponse::from_error(e);
    assert_eq!(r.status, "error");
    assert!(r.requires_reauth());
    assert!(!r.is_retryable());
    assert_eq!(r.error_category(), "Authentication");
    let back = r.to_kite_error_with_status(403);
    assert_eq!(back.message, "expired");
    assert_eq!(back.data, Some(serde_json::Value::Null));
    assert!(back.requires_reauth);
}

#[test]
fn http_errors_take_their_type_from_the_status() {
    let r: ApiResponse<u32> = ApiResponse::from_http_error(503, "Service Unavailable".to_string());
    let (t, _) = r.error_details().unwrap();
    assert_eq!(t, KiteExceptionType::DataException);
    let r: ApiResponse<u32> = ApiResponse::from_http_error(405, "x".to_string());
    assert_eq!(r.error_details().unwrap().0, KiteExceptionType::InputException);
    let r: ApiResponse<u32> = ApiResponse::from_http_error(418, "x".to_string());
    assert_eq!(r.error_details().unwrap().0, KiteExceptionType::GeneralException);
}

#[test]
fn unparsed_bodies_become_errors_from_400_up() {
    let parsed: Result<ApiResponse<u32>, &str> = Err("bad json");
    let r = ApiResponse::from_http_response(502, parsed, "expected value").unwrap();
    let (t, m) = r.error_details().unwrap();
    assert_eq!(t, KiteExceptionType::DataException);
    assert_eq!(m, "HTTP 502 - Failed to parse response: expected value");

    let parsed: Result<ApiResponse<u32>, &str> = Err("bad json");
    assert_eq!(ApiResponse::from_http_response(200, parsed, "expected value").err(), Some("bad json"));

    let parsed: Result<ApiResponse<u32>, &str> = Ok(ApiResponse::success(5));
    assert_eq!(ApiResponse::from_http_response(200, parsed, "").unwrap().into_result().unwrap(), 5);
}

#[test]
fn error_data_is_carried_over() {
    let r = KiteErrorResponse {
        status: "error".to_string(),
        message: "m".to_string(),
        error_type: KiteExceptionType::OrderException,
        data: Some(serde_json::Value::String("detail".to_string())),
    };
    let e = r.to_kite_error();
    assert_eq!(e.data, Some(serde_json::Value::String("detail".to_string())));
    assert_eq!(e.exception_type, KiteExceptionType::OrderException);
}
