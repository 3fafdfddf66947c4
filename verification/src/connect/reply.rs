//! What the client reads from a reply body: the error details of a failed
//! call and the access token of a new session.

use super::client::KiteConnect;
use crate::model::errors::{
    exception_name, exception_of_name, is_known_exception_name, reauth_type, retryable_type,
    KiteError, KiteExceptionType,
};
use crate::text::owned;
use crate::model::response::http_error_type;
use vstd::prelude::*;

verus! {

/// Where a text parses as JSON (`serde_json::from_str`), `Some` of the string
/// found at a JSON pointer (`serde_json::Value::pointer`), or of `None` when
/// nothing or no string is there; `None` where the text is no JSON.
pub uninterp spec fn json_pointer_text(text: Seq<char>, pointer: Seq<char>) -> Option<Option<Seq<char>>>;

/// The view of a nested optional string.
pub open spec fn opt_opt_view(o: Option<Option<String>>) -> Option<Option<Seq<char>>> {
    match o {
        Some(Some(s)) => Some(Some(s@)),
        Some(None) => Some(None),
        None => None,
    }
}

/// Parses a text with `serde_json::from_str` and reads the string at a JSON
/// pointer with `Value::pointer` and `Value::as_str`.
#[verifier::external_body]
fn json_text_at(text: &str, pointer: &str) -> (r: Option<Option<String>>)
    ensures
        opt_opt_view(r) == json_pointer_text(text@, pointer@),
{
    match serde_json::from_str::<serde_json::Value>(text) {
        Ok(v) => Some(v.pointer(pointer).and_then(|x| x.as_str()).map(String::from)),
        Err(_) => None,
    }
}

/// The message of an error reply: the JSON string `message` where the body
/// has one, else the whole body.
pub open spec fn reply_message(body: Seq<char>) -> Seq<char> {
    match json_pointer_text(body, "/message"@) {
        Some(Some(m)) => m,
        _ => body,
    }
}

/// The exception type named by an error reply: the JSON string
/// `error_type` where the body has one.
pub open spec fn reply_error_type(body: Seq<char>) -> Option<Seq<char>> {
    match json_pointer_text(body, "/error_type"@) {
        Some(Some(t)) => Some(t),
        _ => None,
    }
}

/// The message and the exception type name of an error reply.
pub fn error_details(body: &str) -> (r: (String, Option<String>))
    ensures
        r.0@ == reply_message(body@),
        match r.1 {
            Some(t) => reply_error_type(body@) == Some(t@),
            None => reply_error_type(body@) is None,
        },
{
    proof {
        reveal_strlit("/message");
        reveal_strlit("/error_type");
    }
    let message = match json_text_at(body, "/message") {
        Some(Some(m)) => m,
        _ => String::from_str(body),
    };
    let error_type = match json_text_at(body, "/error_type") {
        Some(Some(t)) => Some(t),
        _ => None,
    };
    (message, error_type)
}

/// The error of a failed call answered with `status_code` and `body`: the
/// exception type the body names, or the one that follows the status code
/// where it names none; the reply's message; the status code and its flags.
pub fn api_error(status_code: u16, body: &str) -> (e: KiteError)
    ensures
        e.message@ == reply_message(body@),
        e.status_code == Some(status_code),
        match reply_error_type(body@) {
            Some(t) => {
                &&& exception_name(e.exception_type) == t
                &&& (e.exception_type is Unknown <==> !is_known_exception_name(t))
                &&& !(e.exception_type is Unknown) ==> e.exception_type == exception_of_name(t)
            },
            None => e.exception_type == http_error_type(status_code),
        },
        e.data is None,
        e.requires_reauth == (reauth_type(e.exception_type) || status_code == 403),
        e.is_rate_limited == (status_code == 429),
        e.is_retryable == (retryable_type(e.exception_type) || (500 <= status_code
            && status_code < 600)),
{
    let (message, error_type) = error_details(body);
    let t = match error_type {
        Some(name) => KiteExceptionType::from_name(name.as_str()),
        None => http_exception_type(status_code),
    };
    KiteError::new(t, message).with_status_code(status_code)
}

/// The error of a request whose last attempt was answered with a server
/// error or rate limiting and is not retried again: the exception type
/// `ServerError` (a name the API does not define), the reply's text as the
/// message or `Unknown server error` where the text could not be read, and
/// the status code with the flags it sets.
pub fn server_error(status_code: u16, body: Option<&str>) -> (e: KiteError)
    ensures
        e.exception_type is Unknown,
        exception_name(e.exception_type) == "ServerError"@,
        e.message@ == match body {
            Some(b) => b@,
            None => "Unknown server error"@,
        },
        e.status_code == Some(status_code),
        e.data is None,
        e.requires_reauth == (status_code == 403),
        e.is_rate_limited == (status_code == 429),
        e.is_retryable == (500 <= status_code && status_code < 600),
{
    let message = match body {
        Some(b) => owned(b),
        None => owned("Unknown server error"),
    };
    KiteError::new(KiteExceptionType::Unknown(owned("ServerError")), message).with_status_code(
        status_code,
    )
}

/// The error of a request whose last attempt could not be sent or answered
/// and is not retried again: a network exception with the failure's message
/// and no status code.
pub fn send_failure(message: String) -> (e: KiteError)
    ensures
        e.exception_type == KiteExceptionType::NetworkException,
        e.message == message,
        e.status_code is None,
        e.data is None,
        !e.requires_reauth,
        !e.is_rate_limited,
        e.is_retryable,
{
    KiteError::new(KiteExceptionType::NetworkException, message)
}

/// The exception type that follows an HTTP status code.
fn http_exception_type(status_code: u16) -> (t: KiteExceptionType)
    ensures
        t == http_error_type(status_code),
{
    if status_code == 400 {
        KiteExceptionType::InputException
    } else if status_code == 403 {
        KiteExceptionType::TokenException
    } else if status_code == 404 {
        KiteExceptionType::GeneralException
    } else if status_code == 405 {
        KiteExceptionType::InputException
    } else if status_code == 410 {
        KiteExceptionType::GeneralException
    } else if status_code == 429 {
        KiteExceptionType::NetworkException
    } else if status_code == 500 {
        KiteExceptionType::GeneralException
    } else if status_code == 502 {
        KiteExceptionType::NetworkException
    } else if status_code == 503 {
        KiteExceptionType::DataException
    } else if status_code == 504 {
        KiteExceptionType::NetworkException
    } else {
        KiteExceptionType::GeneralException
    }
}

/// The access token of a reply to a session exchange or a renewal: the JSON
/// string at `data.access_token`, if there is one.
pub fn session_access_token(body: &str) -> (r: Option<String>)
    ensures
        match json_pointer_text(body@, "/data/access_token"@) {
            Some(Some(t)) => r matches Some(s) && s@ == t,
            _ => r is None,
        },
{
    proof {
        reveal_strlit("/data/access_token");
    }
    match json_text_at(body, "/data/access_token") {
        Some(Some(t)) => Some(t),
        _ => None,
    }
}

impl KiteConnect {
    /// Takes the access token of a new session's reply for later requests:
    /// `true` and the token is set where the reply has one at
    /// `data.access_token`; `false` and nothing changes where it has none.
    pub fn apply_session_reply(&mut self, body: &str) -> (set: bool)
        ensures
            match json_pointer_text(body@, "/data/access_token"@) {
                Some(Some(t)) => set && final(self).access_token@ == t,
                _ => !set && final(self).access_token == old(self).access_token,
            },
            final(self).api_key == old(self).api_key,
            final(self).root == old(self).root,
    {
        match session_access_token(body) {
            Some(t) => {
                self.set_access_token(t.as_str());
                true
            },
            None => false,
        }
    }

    /// Takes the access token of a renewal's reply for later requests:
    /// `true` and the token is set where the reply has one at
    /// `data.access_token`; `false` and nothing changes where it has none.
    pub fn apply_renewal_reply(&mut self, body: &str) -> (set: bool)
        ensures
            match json_pointer_text(body@, "/data/access_token"@) {
                Some(Some(t)) => set && final(self).access_token@ == t,
                _ => !set && final(self).access_token == old(self).access_token,
            },
            final(self).api_key == old(self).api_key,
            final(self).root == old(self).root,
    {
        match session_access_token(body) {
            Some(t) => {
                self.set_access_token(t.as_str());
                true
            },
            None => false,
        }
    }
}

} // verus!
