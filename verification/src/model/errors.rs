//! Error model of the KiteConnect API: exception types, HTTP statuses, rate
//! limit facts and the error value that the client reports.

use crate::text::{push_decimal, decimal, owned, str_eq};
use vstd::prelude::*;

verus! {

/// The `serde_json::Value` type, carried through as opaque extra error data.
#[verifier::external_type_specification]
#[verifier::external_body]
pub struct ExJsonValue(serde_json::Value);

/// Exception type named in the `error_type` field of an API error response.
#[derive(Debug, PartialEq, Eq)]
pub enum KiteExceptionType {
    /// Session expired or invalidated.
    TokenException,
    /// Account related error.
    UserException,
    /// Order related error.
    OrderException,
    /// Missing or bad parameters.
    InputException,
    /// Insufficient funds.
    MarginException,
    /// Insufficient holdings.
    HoldingException,
    /// The API could not reach the order management system.
    NetworkException,
    /// The API could not understand the order management system's response.
    DataException,
    /// Unclassified error.
    GeneralException,
    /// Any other exception name, kept as it came.
    Unknown(String),
}

impl Clone for KiteExceptionType {
    fn clone(&self) -> (r: Self)
        ensures
            r == *self,
    {
        match self {
            KiteExceptionType::TokenException => KiteExceptionType::TokenException,
            KiteExceptionType::UserException => KiteExceptionType::UserException,
            KiteExceptionType::OrderException => KiteExceptionType::OrderException,
            KiteExceptionType::InputException => KiteExceptionType::InputException,
            KiteExceptionType::MarginException => KiteExceptionType::MarginException,
            KiteExceptionType::HoldingException => KiteExceptionType::HoldingException,
            KiteExceptionType::NetworkException => KiteExceptionType::NetworkException,
            KiteExceptionType::DataException => KiteExceptionType::DataException,
            KiteExceptionType::GeneralException => KiteExceptionType::GeneralException,
            KiteExceptionType::Unknown(s) => KiteExceptionType::Unknown(s.clone()),
        }
    }
}

/// The name of an exception type as the API writes it.
pub open spec fn exception_name(t: KiteExceptionType) -> Seq<char> {
    match t {
        KiteExceptionType::TokenException => "TokenException"@,
        KiteExceptionType::UserException => "UserException"@,
        KiteExceptionType::OrderException => "OrderException"@,
        KiteExceptionType::InputException => "InputException"@,
        KiteExceptionType::MarginException => "MarginException"@,
        KiteExceptionType::HoldingException => "HoldingException"@,
        KiteExceptionType::NetworkException => "NetworkException"@,
        KiteExceptionType::DataException => "DataException"@,
        KiteExceptionType::GeneralException => "GeneralException"@,
        KiteExceptionType::Unknown(s) => s@,
    }
}

/// Whether a name is one of the nine exception names the API defines.
pub open spec fn is_known_exception_name(s: Seq<char>) -> bool {
    ||| s == "TokenException"@
    ||| s == "UserException"@
    ||| s == "OrderException"@
    ||| s == "InputException"@
    ||| s == "MarginException"@
    ||| s == "HoldingException"@
    ||| s == "NetworkException"@
    ||| s == "DataException"@
    ||| s == "GeneralException"@
}

/// The exception type that an `error_type` name stands for: the defined type
/// of that name, else `Unknown` holding the name.
pub open spec fn exception_of_name(s: Seq<char>) -> KiteExceptionType {
    if s == "TokenException"@ {
        KiteExceptionType::TokenException
    } else if s == "UserException"@ {
        KiteExceptionType::UserException
    } else if s == "OrderException"@ {
        KiteExceptionType::OrderException
    } else if s == "InputException"@ {
        KiteExceptionType::InputException
    } else if s == "MarginException"@ {
        KiteExceptionType::MarginException
    } else if s == "HoldingException"@ {
        KiteExceptionType::HoldingException
    } else if s == "NetworkException"@ {
        KiteExceptionType::NetworkException
    } else if s == "DataException"@ {
        KiteExceptionType::DataException
    } else if s == "GeneralException"@ {
        KiteExceptionType::GeneralException
    } else {
        KiteExceptionType::Unknown(arbitrary())
    }
}

impl KiteExceptionType {
    /// The exception type named `name`; any name the API does not define
    /// becomes `Unknown` holding that name.
    pub fn from_name(name: &str) -> (t: Self)
        ensures
            exception_name(t) == name@,
            !(t is Unknown) ==> t == exception_of_name(name@),
            t is Unknown <==> !is_known_exception_name(name@),
    {
        if str_eq(name, "TokenException") {
            KiteExceptionType::TokenException
        } else if str_eq(name, "UserException") {
            KiteExceptionType::UserException
        } else if str_eq(name, "OrderException") {
            KiteExceptionType::OrderException
        } else if str_eq(name, "InputException") {
            KiteExceptionType::InputException
        } else if str_eq(name, "MarginException") {
            KiteExceptionType::MarginException
        } else if str_eq(name, "HoldingException") {
            KiteExceptionType::HoldingException
        } else if str_eq(name, "NetworkException") {
            KiteExceptionType::NetworkException
        } else if str_eq(name, "DataException") {
            KiteExceptionType::DataException
        } else if str_eq(name, "GeneralException") {
            KiteExceptionType::GeneralException
        } else {
            KiteExceptionType::Unknown(owned(name))
        }
    }

    /// The type's name, as its display form writes it.
    pub fn to_string(&self) -> (s: String)
        ensures
            s@ == exception_name(*self),
    {
        match self {
            KiteExceptionType::TokenException => owned("TokenException"),
            KiteExceptionType::UserException => owned("UserException"),
            KiteExceptionType::OrderException => owned("OrderException"),
            KiteExceptionType::InputException => owned("InputException"),
            KiteExceptionType::MarginException => owned("MarginException"),
            KiteExceptionType::HoldingException => owned("HoldingException"),
            KiteExceptionType::NetworkException => owned("NetworkException"),
            KiteExceptionType::DataException => owned("DataException"),
            KiteExceptionType::GeneralException => owned("GeneralException"),
            KiteExceptionType::Unknown(s) => s.clone(),
        }
    }
}

/// HTTP status codes that the API returns on errors.
#[derive(Debug, Clone, Copy, PartialEq, Eq, Structural)]
pub enum KiteHttpStatus {
    /// 400: missing or bad request parameters.
    BadRequest,
    /// 403: session expired or invalidated.
    Forbidden,
    /// 404: resource not found.
    NotFound,
    /// 405: method not allowed on the endpoint.
    MethodNotAllowed,
    /// 410: resource gone for good.
    Gone,
    /// 429: too many requests.
    TooManyRequests,
    /// 500: unexpected error.
    InternalServerError,
    /// 502: the order management system is down.
    BadGateway,
    /// 503: the API is down.
    ServiceUnavailable,
    /// 504: the API is unreachable.
    GatewayTimeout,
}

/// The numeric code of a status.
pub open spec fn status_code(s: KiteHttpStatus) -> u16 {
    match s {
        KiteHttpStatus::BadRequest => 400,
        KiteHttpStatus::Forbidden => 403,
        KiteHttpStatus::NotFound => 404,
        KiteHttpStatus::MethodNotAllowed => 405,
        KiteHttpStatus::Gone => 410,
        KiteHttpStatus::TooManyRequests => 429,
        KiteHttpStatus::InternalServerError => 500,
        KiteHttpStatus::BadGateway => 502,
        KiteHttpStatus::ServiceUnavailable => 503,
        KiteHttpStatus::GatewayTimeout => 504,
    }
}

/// The status with a numeric code, if the API uses the code.
pub open spec fn status_of_code(code: u16) -> Option<KiteHttpStatus> {
    if code == 400 {
        Some(KiteHttpStatus::BadRequest)
    } else if code == 403 {
        Some(KiteHttpStatus::Forbidden)
    } else if code == 404 {
        Some(KiteHttpStatus::NotFound)
    } else if code == 405 {
        Some(KiteHttpStatus::MethodNotAllowed)
    } else if code == 410 {
        Some(KiteHttpStatus::Gone)
    } else if code == 429 {
        Some(KiteHttpStatus::TooManyRequests)
    } else if code == 500 {
        Some(KiteHttpStatus::InternalServerError)
    } else if code == 502 {
        Some(KiteHttpStatus::BadGateway)
    } else if code == 503 {
        Some(KiteHttpStatus::ServiceUnavailable)
    } else if code == 504 {
        Some(KiteHttpStatus::GatewayTimeout)
    } else {
        None
    }
}

/// The reason phrase of a status.
pub open spec fn reason_phrase_of(s: KiteHttpStatus) -> Seq<char> {
    match s {
        KiteHttpStatus::BadRequest => "Bad Request"@,
        KiteHttpStatus::Forbidden => "Forbidden"@,
        KiteHttpStatus::NotFound => "Not Found"@,
        KiteHttpStatus::MethodNotAllowed => "Method Not Allowed"@,
        KiteHttpStatus::Gone => "Gone"@,
        KiteHttpStatus::TooManyRequests => "Too Many Requests"@,
        KiteHttpStatus::InternalServerError => "Internal Server Error"@,
        KiteHttpStatus::BadGateway => "Bad Gateway"@,
        KiteHttpStatus::ServiceUnavailable => "Service Unavailable"@,
        KiteHttpStatus::GatewayTimeout => "Gateway Timeout"@,
    }
}

impl KiteHttpStatus {
    /// The numeric status code.
    pub fn code(&self) -> (c: u16)
        ensures
            c == status_code(*self),
    {
        match self {
            KiteHttpStatus::BadRequest => 400,
            KiteHttpStatus::Forbidden => 403,
            KiteHttpStatus::NotFound => 404,
            KiteHttpStatus::MethodNotAllowed => 405,
            KiteHttpStatus::Gone => 410,
            KiteHttpStatus::TooManyRequests => 429,
            KiteHttpStatus::InternalServerError => 500,
            KiteHttpStatus::BadGateway => 502,
            KiteHttpStatus::ServiceUnavailable => 503,
            KiteHttpStatus::GatewayTimeout => 504,
        }
    }

    /// The status with numeric code `code`, if the API uses it.
    pub fn from_code(code: u16) -> (s: Option<Self>)
        ensures
            s == status_of_code(code),
            match s {
                Some(st) => status_code(st) == code,
                None => forall|st: KiteHttpStatus| status_code(st) != code,
            },
    {
        if code == 400 {
            Some(KiteHttpStatus::BadRequest)
        } else if code == 403 {
            Some(KiteHttpStatus::Forbidden)
        } else if code == 404 {
            Some(KiteHttpStatus::NotFound)
        } else if code == 405 {
            Some(KiteHttpStatus::MethodNotAllowed)
        } else if code == 410 {
            Some(KiteHttpStatus::Gone)
        } else if code == 429 {
            Some(KiteHttpStatus::TooManyRequests)
        } else if code == 500 {
            Some(KiteHttpStatus::InternalServerError)
        } else if code == 502 {
            Some(KiteHttpStatus::BadGateway)
        } else if code == 503 {
            Some(KiteHttpStatus::ServiceUnavailable)
        } else if code == 504 {
            Some(KiteHttpStatus::GatewayTimeout)
        } else {
            None
        }
    }

    /// The reason phrase, e.g. `"Too Many Requests"`.
    pub fn reason_phrase(&self) -> (s: &'static str)
        ensures
            s@ == reason_phrase_of(*self),
    {
        match self {
            KiteHttpStatus::BadRequest => "Bad Request",
            KiteHttpStatus::Forbidden => "Forbidden",
            KiteHttpStatus::NotFound => "Not Found",
            KiteHttpStatus::MethodNotAllowed => "Method Not Allowed",
            KiteHttpStatus::Gone => "Gone",
            KiteHttpStatus::TooManyRequests => "Too Many Requests",
            KiteHttpStatus::InternalServerError => "Internal Server Error",
            KiteHttpStatus::BadGateway => "Bad Gateway",
            KiteHttpStatus::ServiceUnavailable => "Service Unavailable",
            KiteHttpStatus::GatewayTimeout => "Gateway Timeout",
        }
    }

    /// Whether the status is a client error (its code is 4xx).
    pub fn is_client_error(&self) -> (b: bool)
        ensures
            b == (400 <= status_code(*self) < 500),
    {
        match self {
            KiteHttpStatus::BadRequest | KiteHttpStatus::Forbidden | KiteHttpStatus::NotFound
            | KiteHttpStatus::MethodNotAllowed | KiteHttpStatus::Gone
            | KiteHttpStatus::TooManyRequests => true,
            _ => false,
        }
    }

    /// Whether the status is a server error (its code is 5xx).
    pub fn is_server_error(&self) -> (b: bool)
        ensures
            b == (500 <= status_code(*self) < 600),
    {
        match self {
            KiteHttpStatus::InternalServerError | KiteHttpStatus::BadGateway
            | KiteHttpStatus::ServiceUnavailable | KiteHttpStatus::GatewayTimeout => true,
            _ => false,
        }
    }

    /// Whether the status asks for a new login: only 403 does.
    pub fn requires_reauth(&self) -> (b: bool)
        ensures
            b == (*self == KiteHttpStatus::Forbidden),
    {
        match self {
            KiteHttpStatus::Forbidden => true,
            _ => false,
        }
    }

    /// Whether the status reports rate limiting: only 429 does.
    pub fn is_rate_limited(&self) -> (b: bool)
        ensures
            b == (*self == KiteHttpStatus::TooManyRequests),
    {
        match self {
            KiteHttpStatus::TooManyRequests => true,
            _ => false,
        }
    }

    /// The display form: the code, a space and the reason phrase, e.g.
    /// `"429 Too Many Requests"`.
    pub fn to_string(&self) -> (s: String)
        ensures
            s@ == decimal(status_code(*self) as nat) + " "@ + reason_phrase_of(*self),
    {
        let mut s = String::new();
        push_decimal(&mut s, self.code() as u64);
        s.append(" ");
        s.append(self.reason_phrase());
        s
    }
}

/// Rate limit category of the API's error documentation.
#[derive(Debug, Clone, Copy, PartialEq, Eq, Structural)]
pub enum RateLimitEndpoint {
    /// Quote endpoints.
    Quote,
    /// Historical candle endpoints.
    HistoricalCandle,
    /// Order placement endpoints.
    OrderPlacement,
    /// All other endpoints.
    Other,
}

/// Default requests per second of a rate limit category.
pub open spec fn default_rate_of(e: RateLimitEndpoint) -> u32 {
    match e {
        RateLimitEndpoint::Quote => 1,
        RateLimitEndpoint::HistoricalCandle => 3,
        RateLimitEndpoint::OrderPlacement => 10,
        RateLimitEndpoint::Other => 10,
    }
}

impl RateLimitEndpoint {
    /// Default requests per second of this category.
    pub fn default_rate_limit(&self) -> (r: u32)
        ensures
            r == default_rate_of(*self),
    {
        match self {
            RateLimitEndpoint::Quote => 1,
            RateLimitEndpoint::HistoricalCandle => 3,
            RateLimitEndpoint::OrderPlacement => 10,
            RateLimitEndpoint::Other => 10,
        }
    }
}

/// Rate limit of one category.
#[derive(Debug, Clone)]
pub struct RateLimit {
    /// The category.
    pub endpoint: RateLimitEndpoint,
    /// Requests per second allowed.
    pub requests_per_second: u32,
    /// Further constraints, if any.
    pub constraints: Option<RateLimitConstraints>,
}

/// Further limits on order activity.
#[derive(Debug, Clone, PartialEq, Eq, Structural)]
pub struct RateLimitConstraints {
    /// Maximum orders per minute.
    pub max_orders_per_minute: Option<u32>,
    /// Maximum orders per second.
    pub max_orders_per_second: Option<u32>,
    /// Maximum orders per day.
    pub max_orders_per_day: Option<u32>,
    /// Maximum modifications of one order.
    pub max_modifications_per_order: Option<u32>,
}

impl Default for RateLimitConstraints {
    /// The API's published limits: 200 orders a minute, 10 a second, 3000 a
    /// day, 25 modifications per order.
    fn default() -> (c: Self)
        ensures
            c.max_orders_per_minute == Some(200u32),
            c.max_orders_per_second == Some(10u32),
            c.max_orders_per_day == Some(3000u32),
            c.max_modifications_per_order == Some(25u32),
    {
        RateLimitConstraints {
            max_orders_per_minute: Some(200),
            max_orders_per_second: Some(10),
            max_orders_per_day: Some(3000),
            max_modifications_per_order: Some(25),
        }
    }
}

/// An error reported by the API, with the flags the client derives from it.
#[derive(Debug)]
pub struct KiteError {
    /// HTTP status code, when known.
    pub status_code: Option<u16>,
    /// Exception type.
    pub exception_type: KiteExceptionType,
    /// Error message.
    pub message: String,
    /// Extra error data.
    pub data: Option<serde_json::Value>,
    /// Whether a new login is needed.
    pub requires_reauth: bool,
    /// Whether the error comes from rate limiting.
    pub is_rate_limited: bool,
    /// Whether retrying may help.
    pub is_retryable: bool,
}

/// Whether an exception type calls for a new login.
pub open spec fn reauth_type(t: KiteExceptionType) -> bool {
    t is TokenException
}

/// Whether an exception type can go away on retry.
pub open spec fn retryable_type(t: KiteExceptionType) -> bool {
    t is NetworkException || t is DataException
}

/// The user-facing category of an exception type.
pub open spec fn category_of(t: KiteExceptionType) -> Seq<char> {
    match t {
        KiteExceptionType::TokenException => "Authentication"@,
        KiteExceptionType::UserException => "Account"@,
        KiteExceptionType::OrderException => "Order"@,
        KiteExceptionType::InputException => "Input Validation"@,
        KiteExceptionType::MarginException => "Insufficient Funds"@,
        KiteExceptionType::HoldingException => "Insufficient Holdings"@,
        KiteExceptionType::NetworkException => "Network"@,
        KiteExceptionType::DataException => "System"@,
        KiteExceptionType::GeneralException => "General"@,
        KiteExceptionType::Unknown(_) => "Unknown"@,
    }
}

/// The category of an exception type, as a static string.
pub fn exception_category(t: &KiteExceptionType) -> (s: &'static str)
    ensures
        s@ == category_of(*t),
{
    match t {
        KiteExceptionType::TokenException => "Authentication",
        KiteExceptionType::UserException => "Account",
        KiteExceptionType::OrderException => "Order",
        KiteExceptionType::InputException => "Input Validation",
        KiteExceptionType::MarginException => "Insufficient Funds",
        KiteExceptionType::HoldingException => "Insufficient Holdings",
        KiteExceptionType::NetworkException => "Network",
        KiteExceptionType::DataException => "System",
        KiteExceptionType::GeneralException => "General",
        KiteExceptionType::Unknown(_) => "Unknown",
    }
}

impl KiteError {
    /// An error of the given type and message, without status code or data;
    /// a token exception needs a new login, network and data exceptions may
    /// be retried.
    pub fn new(exception_type: KiteExceptionType, message: String) -> (e: Self)
        ensures
            e.status_code is None,
            e.exception_type == exception_type,
            e.message == message,
            e.data is None,
            e.requires_reauth == reauth_type(exception_type),
            !e.is_rate_limited,
            e.is_retryable == retryable_type(exception_type),
    {
        let requires_reauth = match exception_type {
            KiteExceptionType::TokenException => true,
            _ => false,
        };
        let is_retryable = match exception_type {
            KiteExceptionType::NetworkException | KiteExceptionType::DataException => true,
            _ => false,
        };
        KiteError {
            status_code: None,
            exception_type,
            message,
            data: None,
            requires_reauth,
            is_rate_limited: false,
            is_retryable,
        }
    }

    /// This error with its HTTP status code set: 403 also marks a new login
    /// as needed, 429 marks rate limiting and any 5xx code marks it
    /// retryable; no flag is ever cleared.
    pub fn with_status_code(self, status_code: u16) -> (e: Self)
        ensures
            e.status_code == Some(status_code),
            e.exception_type == self.exception_type,
            e.message == self.message,
            e.data == self.data,
            e.requires_reauth == (self.requires_reauth || status_code == 403),
            e.is_rate_limited == (self.is_rate_limited || status_code == 429),
            e.is_retryable == (self.is_retryable || (500 <= status_code && status_code < 600)),
    {
        let mut e = self;
        e.status_code = Some(status_code);
        if status_code == 403 {
            e.requires_reauth = true;
        }
        if status_code == 429 {
            e.is_rate_limited = true;
        }
        if status_code >= 500 && status_code < 600 {
            e.is_retryable = true;
        }
        e
    }

    /// This error with extra data attached.
    pub fn with_data(self, data: serde_json::Value) -> (e: Self)
        ensures
            e.data == Some(data),
            e.status_code == self.status_code,
            e.exception_type == self.exception_type,
            e.message == self.message,
            e.requires_reauth == self.requires_reauth,
            e.is_rate_limited == self.is_rate_limited,
            e.is_retryable == self.is_retryable,
    {
        let mut e = self;
        e.data = Some(data);
        e
    }

    /// Whether the session has expired: the error calls for a new login.
    pub fn is_session_expired(&self) -> (b: bool)
        ensures
            b == self.requires_reauth,
    {
        self.requires_reauth
    }

    /// The user-facing category of the error's exception type.
    pub fn error_category(&self) -> (s: &'static str)
        ensures
            s@ == category_of(self.exception_type),
    {
        exception_category(&self.exception_type)
    }

    /// The display form: `"[<category>] <exception type>: <message>"`.
    pub fn to_string(&self) -> (s: String)
        ensures
            s@ == "["@ + category_of(self.exception_type) + "] "@ + exception_name(
                self.exception_type,
            ) + ": "@ + self.message@,
    {
        let mut s = owned("[");
        s.append(self.error_category());
        s.append("] ");
        let name = self.exception_type.to_string();
        s.append(name.as_str());
        s.append(": ");
        s.append(self.message.as_str());
        s
    }
}


/// Every status is a client error or a server error, never both; the
/// statuses that ask for a new login or report rate limiting are client
/// errors.
pub proof fn lemma_status_classes(s: KiteHttpStatus)
    ensures
        (400 <= status_code(s) < 500) != (500 <= status_code(s) < 600),
        s == KiteHttpStatus::Forbidden ==> 400 <= status_code(s) < 500,
        s == KiteHttpStatus::TooManyRequests ==> 400 <= status_code(s) < 500,
{
}

/// Distinct statuses have distinct codes, so a code names at most one status.
pub proof fn lemma_status_code_injective(a: KiteHttpStatus, b: KiteHttpStatus)
    ensures
        status_code(a) == status_code(b) ==> a == b,
{
}

/// The flags that an error takes from its status code agree with the
/// status's own classification: code 403 is exactly `Forbidden` (a new
/// login), 429 exactly `TooManyRequests` (rate limited); and reading a
/// status's code back gives the status.
pub proof fn lemma_status_code_flags(s: KiteHttpStatus)
    ensures
        (status_code(s) == 403) == (s == KiteHttpStatus::Forbidden),
        (status_code(s) == 429) == (s == KiteHttpStatus::TooManyRequests),
        status_of_code(status_code(s)) == Some(s),
{
}

/// Naming a defined exception type and reading the name back gives the same
/// type; the nine defined names are the known names.
pub proof fn lemma_exception_name_round_trip(t: KiteExceptionType)
    requires
        !(t is Unknown),
    ensures
        is_known_exception_name(exception_name(t)),
        exception_of_name(exception_name(t)) == t,
{
    reveal_strlit("TokenException");
    reveal_strlit("UserException");
    reveal_strlit("OrderException");
    reveal_strlit("InputException");
    reveal_strlit("MarginException");
    reveal_strlit("HoldingException");
    reveal_strlit("NetworkException");
    reveal_strlit("DataException");
    reveal_strlit("GeneralException");
    assert("TokenException"@[0] == 'T');
    assert("UserException"@[0] == 'U');
    assert("OrderException"@[0] == 'O');
    assert("InputException"@[0] == 'I');
    assert("MarginException"@[0] == 'M');
    assert("HoldingException"@[0] == 'H');
    assert("NetworkException"@[0] == 'N');
    assert("DataException"@[0] == 'D');
    assert("GeneralException"@[0] == 'G');
}

} // verus!
