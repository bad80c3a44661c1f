//! JSON-RPC 2.0 messages of the broker.

use vstd::prelude::*;
use crate::text::{chars_of, contains, contains_exec};

verus! {

/// JSON-RPC error codes.
#[derive(Debug, Clone, Copy, PartialEq, Eq, Structural)]
pub enum ErrorCode {
    InvalidRequest,
    MethodNotFound,
    InvalidParams,
    InternalError,
    PermissionDenied,
    ScopeViolation,
    RateLimited,
    Timeout,
    ServiceUnavailable,
    NetworkDenied,
    PathDenied,
}

/// The number of an error code on the wire.
pub open spec fn error_code_number(c: ErrorCode) -> int {
    match c {
        ErrorCode::InvalidRequest => -32600,
        ErrorCode::MethodNotFound => -32601,
        ErrorCode::InvalidParams => -32602,
        ErrorCode::InternalError => -32603,
        ErrorCode::PermissionDenied => -32001,
        ErrorCode::ScopeViolation => -32002,
        ErrorCode::RateLimited => -32003,
        ErrorCode::Timeout => -32004,
        ErrorCode::ServiceUnavailable => -32005,
        ErrorCode::NetworkDenied => -32006,
        ErrorCode::PathDenied => -32007,
    }
}

impl ErrorCode {
    /// The number of the code on the wire.
    pub fn number(&self) -> (r: i32)
        ensures
            r == error_code_number(*self),
    {
        match self {
            ErrorCode::InvalidRequest => -32600,
            ErrorCode::MethodNotFound => -32601,
            ErrorCode::InvalidParams => -32602,
            ErrorCode::InternalError => -32603,
            ErrorCode::PermissionDenied => -32001,
            ErrorCode::ScopeViolation => -32002,
            ErrorCode::RateLimited => -32003,
            ErrorCode::Timeout => -32004,
            ErrorCode::ServiceUnavailable => -32005,
            ErrorCode::NetworkDenied => -32006,
            ErrorCode::PathDenied => -32007,
        }
    }
}

/// A JSON-RPC request.
#[derive(Debug)]
pub struct Request {
    pub jsonrpc: String,
    pub id: Option<serde_json::Value>,
    pub method: String,
    pub params: Option<serde_json::Value>,
}

/// A JSON-RPC error object.
#[derive(Debug)]
pub struct Error {
    pub code: i32,
    pub message: String,
    pub data: Option<serde_json::Value>,
}

/// A JSON-RPC response.
#[derive(Debug)]
pub struct Response {
    pub jsonrpc: String,
    pub id: Option<serde_json::Value>,
    pub result: Option<serde_json::Value>,
    pub error: Option<Error>,
}

/// The code an error message is reported under, by the kinds of refusal the
/// error code table names: a list outside the declared scope is a scope
/// violation, a refused connection or a missing host list is a network
/// denial, a refused path is a path denial, a service the platform lacks is
/// unavailable, any other refusal (a resource not declared, an operation not
/// permitted or not allowed) is a permission error; then "not found" is an
/// unknown method, invalid parameters are reported as such, and anything
/// else is an internal error.
pub open spec fn classify_error(message: Seq<char>) -> ErrorCode {
    if contains(message, "not in allowed scope"@) {
        ErrorCode::ScopeViolation
    } else if contains(message, "Network access denied"@) || contains(message, "No network hosts allowed"@) {
        ErrorCode::NetworkDenied
    } else if contains(message, "access denied for path"@) || contains(message, "Path access denied"@) {
        ErrorCode::PathDenied
    } else if contains(message, "not available"@) || contains(message, "unavailable"@) {
        ErrorCode::ServiceUnavailable
    } else if contains(message, "denied"@) || contains(message, "not permitted"@) || contains(
        message,
        "not allowed"@,
    ) || contains(message, "permissions declared"@) {
        ErrorCode::PermissionDenied
    } else if contains(message, "not found"@) {
        ErrorCode::MethodNotFound
    } else if contains(message, "invalid"@) || contains(message, "Invalid param"@) {
        ErrorCode::InvalidParams
    } else {
        ErrorCode::InternalError
    }
}

/// The code an error message is reported under.
pub fn classify_error_exec(message: &str) -> (r: ErrorCode)
    ensures
        r == classify_error(message@),
{
    let m = chars_of(message);
    let s = m.as_slice();
    if contains_exec(s, chars_of("not in allowed scope").as_slice()) {
        ErrorCode::ScopeViolation
    } else if contains_exec(s, chars_of("Network access denied").as_slice()) || contains_exec(
        s,
        chars_of("No network hosts allowed").as_slice(),
    ) {
        ErrorCode::NetworkDenied
    } else if contains_exec(s, chars_of("access denied for path").as_slice()) || contains_exec(
        s,
        chars_of("Path access denied").as_slice(),
    ) {
        ErrorCode::PathDenied
    } else if contains_exec(s, chars_of("not available").as_slice()) || contains_exec(
        s,
        chars_of("unavailable").as_slice(),
    ) {
        ErrorCode::ServiceUnavailable
    } else if contains_exec(s, chars_of("denied").as_slice()) || contains_exec(
        s,
        chars_of("not permitted").as_slice(),
    ) || contains_exec(s, chars_of("not allowed").as_slice()) || contains_exec(
        s,
        chars_of("permissions declared").as_slice(),
    ) {
        ErrorCode::PermissionDenied
    } else if contains_exec(s, chars_of("not found").as_slice()) {
        ErrorCode::MethodNotFound
    } else if contains_exec(s, chars_of("invalid").as_slice()) || contains_exec(
        s,
        chars_of("Invalid param").as_slice(),
    ) {
        ErrorCode::InvalidParams
    } else {
        ErrorCode::InternalError
    }
}

impl Response {
    /// A success response.
    pub fn success(id: Option<serde_json::Value>, result: serde_json::Value) -> (r: Self)
        ensures
            r.jsonrpc@ == "2.0"@,
            r.id == id,
            r.result == Some(result),
            r.error is None,
    {
        Response { jsonrpc: "2.0".to_owned(), id, result: Some(result), error: None }
    }

    /// An error response.
    pub fn error(id: Option<serde_json::Value>, code: ErrorCode, message: String) -> (r: Self)
        ensures
            r.jsonrpc@ == "2.0"@,
            r.id == id,
            r.result is None,
            r.error matches Some(e) && e.code == error_code_number(code) && e.message == message
                && e.data is None,
    {
        Response {
            jsonrpc: "2.0".to_owned(),
            id,
            result: None,
            error: Some(Error { code: code.number(), message, data: None }),
        }
    }

    /// The response to a line that is not a JSON-RPC request, with the
    /// parser's account of it.
    pub fn invalid_request(detail: &str) -> (r: Self)
        ensures
            r.jsonrpc@ == "2.0"@,
            r.id is None,
            r.result is None,
            r.error matches Some(e) && e.code == error_code_number(ErrorCode::InvalidRequest)
                && e.message@ == "Invalid JSON-RPC request: "@ + detail@ && e.data is None,
    {
        Self::error(None, ErrorCode::InvalidRequest, crate::policy::concat2("Invalid JSON-RPC request: ", detail))
    }

    /// The response to a call's outcome: a success with the value, or an
    /// error whose code is the kind of refusal its message reports.
    pub fn from_result(id: Option<serde_json::Value>, result: Result<serde_json::Value, String>) -> (r:
        Self)
        ensures
            r.jsonrpc@ == "2.0"@,
            r.id == id,
            match result {
                Ok(v) => r.result == Some(v) && r.error is None,
                Err(m) => r.result is None && (r.error matches Some(e) && e.code == error_code_number(
                    classify_error(m@),
                ) && e.message == m && e.data is None),
            },
    {
        match result {
            Ok(value) => Self::success(id, value),
            Err(message) => {
                let code = classify_error_exec(message.as_str());
                Self::error(id, code, message)
            },
        }
    }
}

} // verus!
