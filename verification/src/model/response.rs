//! Response envelopes of the KiteConnect API: success responses carry
//! `status: "success"` and a `data` payload, error responses carry
//! `status: "error"`, a message and an exception type.

use super::errors::{
    category_of, exception_category, reauth_type, retryable_type, status_code, status_of_code,
    KiteError, KiteExceptionType, KiteHttpStatus,
};
use crate::text::{decimal, owned, push_decimal};
use vstd::prelude::*;

verus! {

/// Result of an API operation.
pub type KiteResult<T> = Result<T, KiteError>;

/// A successful response: its status and its payload.
#[derive(Debug)]
pub struct KiteResponse<T> {
    /// Response status, `"success"` for successful requests.
    pub status: String,
    /// The payload.
    pub data: T,
}

/// List payloads come wrapped the same way.
pub type ListResponse<T> = KiteResponse<Vec<T>>;

/// An error response of the API.
#[derive(Debug)]
pub struct KiteErrorResponse {
    /// Response status, `"error"` for error responses.
    pub status: String,
    /// Error message.
    pub message: String,
    /// Exception type named by the response.
    pub error_type: KiteExceptionType,
    /// Extra error data, if any.
    pub data: Option<serde_json::Value>,
}

/// A copy of a JSON value; calls `serde_json::Value::clone`, which copies the
/// value exactly.
#[verifier::external_body]
fn json_clone(v: &serde_json::Value) -> (r: serde_json::Value)
    ensures
        r == *v,
{
    v.clone()
}

/// The default JSON value; calls `serde_json::Value::default` (JSON `null`).
/// Nothing is stated of the result.
#[verifier::external_body]
fn json_default() -> serde_json::Value {
    serde_json::Value::default()
}

impl KiteErrorResponse {
    /// The error that this response reports: its type and message, and its
    /// data, or a default JSON value where it has none.
    pub fn to_kite_error(&self) -> (e: KiteError)
        ensures
            e.status_code is None,
            e.exception_type == self.error_type,
            e.message@ == self.message@,
            e.data is Some,
            self.data matches Some(d) ==> e.data == Some(d),
            e.requires_reauth == reauth_type(self.error_type),
            !e.is_rate_limited,
            e.is_retryable == retryable_type(self.error_type),
    {
        let data = match &self.data {
            Some(d) => json_clone(d),
            None => json_default(),
        };
        KiteError::new(self.error_type.clone(), self.message.clone()).with_data(data)
    }

    /// The error that this response reports, with an HTTP status code.
    pub fn to_kite_error_with_status(&self, status_code: u16) -> (e: KiteError)
        ensures
            e.status_code == Some(status_code),
            e.exception_type == self.error_type,
            e.message@ == self.message@,
            e.data is Some,
            self.data matches Some(d) ==> e.data == Some(d),
            e.requires_reauth == (reauth_type(self.error_type) || status_code == 403),
            e.is_rate_limited == (status_code == 429),
            e.is_retryable == (retryable_type(self.error_type) || (500 <= status_code
                && status_code < 600)),
    {
        self.to_kite_error().with_status_code(status_code)
    }

    /// Whether the error calls for a new login (a token exception).
    pub fn requires_reauth(&self) -> (b: bool)
        ensures
            b == reauth_type(self.error_type),
    {
        match self.error_type {
            KiteExceptionType::TokenException => true,
            _ => false,
        }
    }

    /// Whether retrying may help (a network or data exception).
    pub fn is_retryable(&self) -> (b: bool)
        ensures
            b == retryable_type(self.error_type),
    {
        match self.error_type {
            KiteExceptionType::NetworkException | KiteExceptionType::DataException => true,
            _ => false,
        }
    }

    /// The user-facing category of the error's exception type.
    pub fn error_category(&self) -> (s: &'static str)
        ensures
            s@ == category_of(self.error_type),
    {
        exception_category(&self.error_type)
    }

    /// The error response that reports `error`: status `"error"`, and the
    /// error's message, type and data.
    pub fn from_error(error: KiteError) -> (r: Self)
        ensures
            r.status@ == "error"@,
            r.message == error.message,
            r.error_type == error.exception_type,
            r.data == error.data,
    {
        KiteErrorResponse {
            status: owned("error"),
            message: error.message,
            error_type: error.exception_type,
            data: error.data,
        }
    }
}

/// A response that is either a success or an error.
#[derive(Debug)]
pub enum ApiResponse<T> {
    /// Successful response with its payload.
    Success(KiteResponse<T>),
    /// Error response.
    Error(KiteErrorResponse),
}

/// Exception type given to an HTTP error whose body could not be parsed.
pub open spec fn unparsed_error_type(status_code: u16) -> KiteExceptionType {
    if status_code == 400 {
        KiteExceptionType::InputException
    } else if status_code == 403 {
        KiteExceptionType::TokenException
    } else if status_code == 404 {
        KiteExceptionType::GeneralException
    } else if status_code == 429 {
        KiteExceptionType::NetworkException
    } else if 500 <= status_code <= 599 {
        KiteExceptionType::DataException
    } else {
        KiteExceptionType::GeneralException
    }
}

/// Exception type given to a raw HTTP error.
pub open spec fn http_error_type(status_code: u16) -> KiteExceptionType {
    if status_code == 400 {
        KiteExceptionType::InputException
    } else if status_code == 403 {
        KiteExceptionType::TokenException
    } else if status_code == 404 {
        KiteExceptionType::GeneralException
    } else if status_code == 405 {
        KiteExceptionType::InputException
    } else if status_code == 410 {
        KiteExceptionType::GeneralException
    } else if status_code == 429 {
        KiteExceptionType::NetworkException
    } else if status_code == 500 {
        KiteExceptionType::GeneralException
    } else if status_code == 502 {
        KiteExceptionType::NetworkException
    } else if status_code == 503 {
        KiteExceptionType::DataException
    } else if status_code == 504 {
        KiteExceptionType::NetworkException
    } else {
        KiteExceptionType::GeneralException
    }
}

/// What a raw HTTP error is taken for, by its status code alone: only 403
/// (an expired or invalidated session) is a token exception and calls for a
/// new login; 400 and 405 are input errors; 429, 502 and 504 are network
/// exceptions and 503 a data exception, the four retryable codes; every
/// other code, 404, 410 and 500 among them, is a general exception.
pub proof fn lemma_http_error_type_by_code(code: u16)
    ensures
        (http_error_type(code) == KiteExceptionType::TokenException) <==> code == 403,
        reauth_type(http_error_type(code)) <==> code == 403,
        (http_error_type(code) == KiteExceptionType::InputException) <==> (code == 400 || code
            == 405),
        (http_error_type(code) == KiteExceptionType::NetworkException) <==> (code == 429 || code
            == 502 || code == 504),
        (http_error_type(code) == KiteExceptionType::DataException) <==> code == 503,
        retryable_type(http_error_type(code)) <==> (code == 429 || code == 502 || code == 503
            || code == 504),
        (http_error_type(code) == KiteExceptionType::GeneralException) <==> !(code == 400 || code
            == 403 || code == 405 || code == 429 || code == 502 || code == 503 || code == 504),
        category_of(http_error_type(code)) == "Authentication"@ <==> code == 403,
{
    reveal_strlit("Authentication");
    reveal_strlit("Input Validation");
    reveal_strlit("Network");
    reveal_strlit("System");
    reveal_strlit("General");
    assert("Input Validation"@[0] == 'I');
    assert("Network"@[0] == 'N');
    assert("System"@[0] == 'S');
    assert("General"@[0] == 'G');
    assert("Authentication"@[0] == 'A');
}

/// The exception type of a raw HTTP error agrees with the flags of its
/// status: a status asks for a new login exactly when its error is a token
/// exception, and rate limiting is a network exception.
pub proof fn lemma_http_error_type_matches_status(s: KiteHttpStatus)
    ensures
        status_of_code(status_code(s)) == Some(s),
        reauth_type(http_error_type(status_code(s))) <==> s == KiteHttpStatus::Forbidden,
        s == KiteHttpStatus::TooManyRequests ==> http_error_type(status_code(s))
            == KiteExceptionType::NetworkException,
{
}

/// The message given to an HTTP error whose body could not be parsed.
pub open spec fn unparsed_message(status_code: u16, parse_error: Seq<char>) -> Seq<char> {
    "HTTP "@ + decimal(status_code as nat) + " - Failed to parse response: "@ + parse_error
}

impl<T> ApiResponse<T> {
    /// Whether the response is a success.
    pub fn is_success(&self) -> (b: bool)
        ensures
            b == (self is Success),
    {
        match self {
            ApiResponse::Success(_) => true,
            ApiResponse::Error(_) => false,
        }
    }

    /// Whether the response is an error.
    pub fn is_error(&self) -> (b: bool)
        ensures
            b == (self is Error),
    {
        match self {
            ApiResponse::Success(_) => false,
            ApiResponse::Error(_) => true,
        }
    }

    /// The payload of a success, or the error response.
    pub fn data(self) -> (r: Result<T, KiteErrorResponse>)
        ensures
            match self {
                ApiResponse::Success(resp) => r == Ok::<T, KiteErrorResponse>(resp.data),
                ApiResponse::Error(err) => r == Err::<T, KiteErrorResponse>(err),
            },
    {
        match self {
            ApiResponse::Success(response) => Ok(response.data),
            ApiResponse::Error(error) => Err(error),
        }
    }

    /// A reference to the payload of a success, or to the error response.
    pub fn data_ref(&self) -> (r: Result<&T, &KiteErrorResponse>)
        ensures
            match self {
                ApiResponse::Success(resp) => r == Ok::<&T, &KiteErrorResponse>(&resp.data),
                ApiResponse::Error(err) => r == Err::<&T, &KiteErrorResponse>(err),
            },
    {
        match self {
            ApiResponse::Success(response) => Ok(&response.data),
            ApiResponse::Error(error) => Err(error),
        }
    }

    /// The payload of a success, or the error that an error response reports.
    pub fn into_result(self) -> (r: KiteResult<T>)
        ensures
            match self {
                ApiResponse::Success(resp) => r matches Ok(d) && d == resp.data,
                ApiResponse::Error(err) => r matches Err(e) && e.exception_type == err.error_type
                    && e.message@ == err.message@ && e.status_code is None,
            },
    {
        match self {
            ApiResponse::Success(response) => Ok(response.data),
            ApiResponse::Error(error) => Err(error.to_kite_error()),
        }
    }

    /// Like `into_result`, the error also carrying the HTTP status code.
    pub fn into_result_with_status(self, status_code: u16) -> (r: KiteResult<T>)
        ensures
            match self {
                ApiResponse::Success(resp) => r matches Ok(d) && d == resp.data,
                ApiResponse::Error(err) => r matches Err(e) && e.exception_type == err.error_type
                    && e.message@ == err.message@ && e.status_code == Some(status_code),
            },
    {
        match self {
            ApiResponse::Success(response) => Ok(response.data),
            ApiResponse::Error(error) => Err(error.to_kite_error_with_status(status_code)),
        }
    }

    /// A success response carrying `data`.
    pub fn success(data: T) -> (r: Self)
        ensures
            r matches ApiResponse::Success(resp) && resp.data == data && resp.status@
                == "success"@,
    {
        ApiResponse::Success(KiteResponse { status: owned("success"), data })
    }

    /// The error response that reports `error`.
    pub fn error(error: KiteError) -> (r: Self)
        ensures
            r matches ApiResponse::Error(err) && err.status@ == "error"@ && err.message
                == error.message && err.error_type == error.exception_type && err.data
                == error.data,
    {
        ApiResponse::Error(KiteErrorResponse::from_error(error))
    }

    /// An error response of the given type and message, without data.
    pub fn error_from_parts(exception_type: KiteExceptionType, message: String) -> (r: Self)
        ensures
            r matches ApiResponse::Error(err) && err.status@ == "error"@ && err.message
                == message && err.error_type == exception_type && err.data is None,
    {
        let error = KiteError::new(exception_type, message);
        ApiResponse::Error(KiteErrorResponse::from_error(error))
    }

    /// The exception type and message of an error response.
    pub fn error_details(&self) -> (r: Option<(KiteExceptionType, &str)>)
        ensures
            match self {
                ApiResponse::Error(err) => r matches Some(p) && p.0 == err.error_type && p.1@
                    == err.message@,
                ApiResponse::Success(_) => r is None,
            },
    {
        match self {
            ApiResponse::Error(error) => Some((error.error_type.clone(), error.message.as_str())),
            ApiResponse::Success(_) => None,
        }
    }

    /// Whether the response reports an expired session.
    pub fn is_session_expired(&self) -> (b: bool)
        ensures
            b == (self matches ApiResponse::Error(err) && reauth_type(err.error_type)),
    {
        match self {
            ApiResponse::Error(error) => error.requires_reauth(),
            ApiResponse::Success(_) => false,
        }
    }

    /// Whether the response reports an error that retrying may cure.
    pub fn is_retryable(&self) -> (b: bool)
        ensures
            b == (self matches ApiResponse::Error(err) && retryable_type(err.error_type)),
    {
        match self {
            ApiResponse::Error(error) => error.is_retryable(),
            ApiResponse::Success(_) => false,
        }
    }

    /// The error response for a raw HTTP error: the exception type follows
    /// the status code, and the error carries the code and its flags.
    pub fn from_http_error(status_code: u16, message: String) -> (r: Self)
        ensures
            r matches ApiResponse::Error(err) && err.status@ == "error"@ && err.message
                == message && err.error_type == http_error_type(status_code) && err.data is None,
            r matches ApiResponse::Error(err) && (reauth_type(err.error_type) <==> status_code
                == 403),
    {
        proof {
            lemma_http_error_type_by_code(status_code);
        }
        let error_type = if status_code == 400 {
            KiteExceptionType::InputException
        } else if status_code == 403 {
            KiteExceptionType::TokenException
        } else if status_code == 404 {
            KiteExceptionType::GeneralException
        } else if status_code == 405 {
            KiteExceptionType::InputException
        } else if status_code == 410 {
            KiteExceptionType::GeneralException
        } else if status_code == 429 {
            KiteExceptionType::NetworkException
        } else if status_code == 500 {
            KiteExceptionType::GeneralException
        } else if status_code == 502 {
            KiteExceptionType::NetworkException
        } else if status_code == 503 {
            KiteExceptionType::DataException
        } else if status_code == 504 {
            KiteExceptionType::NetworkException
        } else {
            KiteExceptionType::GeneralException
        };
        let error = KiteError::new(error_type, message).with_status_code(status_code);
        ApiResponse::Error(KiteErrorResponse::from_error(error))
    }

    /// The response for an HTTP reply with status code `status_code`, from
    /// the outcome of parsing its body as an API response; `parse_error_text`
    /// is the display of the parse error, if there was one.
    ///
    /// A parsed success is returned as it is, a parsed error response gets
    /// the status code in its error context (and JSON `null` data where it
    /// had none). A body that did not parse becomes an error response when
    /// the status code is 400 or above, its exception type following the
    /// code; below 400 the parse error is returned.
    pub fn from_http_response<E>(
        status_code: u16,
        parsed: Result<ApiResponse<T>, E>,
        parse_error_text: &str,
    ) -> (r: Result<ApiResponse<T>, E>)
        ensures
            match parsed {
                Ok(ApiResponse::Success(resp)) => r matches Ok(ApiResponse::Success(r2)) && r2
                    == resp,
                Ok(ApiResponse::Error(err)) => r matches Ok(ApiResponse::Error(e2)) && e2.status@
                    == "error"@ && e2.message@ == err.message@ && e2.error_type == err.error_type
                    && e2.data is Some && (err.data matches Some(d) ==> e2.data == Some(d)),
                Err(pe) => if status_code >= 400 {
                    r matches Ok(ApiResponse::Error(e2)) && e2.status@ == "error"@
                        && e2.message@ == unparsed_message(status_code, parse_error_text@)
                        && e2.error_type == unparsed_error_type(status_code) && e2.data is None
                } else {
                    r == Err::<ApiResponse<T>, E>(pe)
                },
            },
    {
        match parsed {
            Ok(ApiResponse::Success(resp)) => Ok(ApiResponse::Success(resp)),
            Ok(ApiResponse::Error(error_resp)) => {
                let enhanced = error_resp.to_kite_error_with_status(status_code);
                Ok(ApiResponse::Error(KiteErrorResponse::from_error(enhanced)))
            },
            Err(e) => {
                if status_code >= 400 {
                    let error_type = if status_code == 400 {
                        KiteExceptionType::InputException
                    } else if status_code == 403 {
                        KiteExceptionType::TokenException
                    } else if status_code == 404 {
                        KiteExceptionType::GeneralException
                    } else if status_code == 429 {
                        KiteExceptionType::NetworkException
                    } else if status_code >= 500 && status_code <= 599 {
                        KiteExceptionType::DataException
                    } else {
                        KiteExceptionType::GeneralException
                    };
                    let mut message = owned("HTTP ");
                    push_decimal(&mut message, status_code as u64);
                    message.append(" - Failed to parse response: ");
                    message.append(parse_error_text);
                    let error = KiteError::new(error_type, message).with_status_code(status_code);
                    Ok(ApiResponse::Error(KiteErrorResponse::from_error(error)))
                } else {
                    Err(e)
                }
            },
        }
    }
}

/// A response that confirms success and carries nothing else.
#[derive(Debug, Clone)]
pub struct SuccessResponse {
    /// Response status, `"success"`.
    pub status: String,
}

} // verus!
