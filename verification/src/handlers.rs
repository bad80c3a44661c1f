//! Decisions of the broker's request handlers: which parameters a request
//! needs, which policy check it has to pass, and what is left to be done.
//! The work itself (reading files, running commands, HTTP) is done by the
//! caller with what these functions hand back.

use vstd::prelude::*;
use crate::json::{
    json_member, json_text, json_member_items, json_member_entries, member, text_of, member_items,
    member_entries,
};
use crate::manifest::Permissions as ManifestPermissions;
use crate::manifest_policy::{PolicyError, policy_error_message};
use crate::permissions::{strs, PermissionsView};
use crate::policy::{
    AccessError, access_error_message, concat2, string_of, path_allowed, exec_listed, network_allowed,
    network_target, service_allows,
};
use crate::text::{chars_of, chars_eq};
use crate::jsonrpc::{ErrorCode, classify_error, classify_error_exec};

pub mod env;
pub mod exec;
pub mod fs;
pub mod network;
pub mod services;

verus! {

// ---------------------------------------------------------------------------
// Errors
// ---------------------------------------------------------------------------

/// Why a handler refused or could not serve a request.
#[derive(Debug)]
pub enum HandlerError {
    MissingParam(String),
    UnknownMethod { namespace: String, method: String },
    Denied(AccessError),
    Refused(PolicyError),
    InvalidUrl(String),
    NoHost,
    NoPort,
    UnsupportedHttpMethod(String),
    ServiceStub { service: String, method: String },
    RemindersUnavailable,
    InvalidParams { method: String, detail: String },
}

/// The message of a handler error.
pub open spec fn handler_error_message(e: HandlerError) -> Seq<char> {
    match e {
        HandlerError::MissingParam(p) => "Missing '"@ + p@ + "' parameter"@,
        HandlerError::UnknownMethod { namespace, method } => "Unknown "@ + namespace@ + " method: "@
            + method@,
        HandlerError::Denied(a) => access_error_message(a),
        HandlerError::Refused(p) => policy_error_message(p),
        HandlerError::InvalidUrl(m) => m@,
        HandlerError::NoHost => "Invalid URL: no host"@,
        HandlerError::NoPort => "Invalid URL: no port"@,
        HandlerError::UnsupportedHttpMethod(m) => "Unsupported HTTP method: "@ + m@,
        HandlerError::ServiceStub { service, method } => "Service unavailable: "@ + service@ + "."@
            + method@ + " not implemented (stub)"@,
        HandlerError::RemindersUnavailable => "Reminders service not available on this platform"@,
        HandlerError::InvalidParams { method, detail } => "Invalid parameters for reminders."@
            + method@ + ": "@ + detail@,
    }
}

impl HandlerError {
    /// The human-readable message of the error.
    pub fn message(&self) -> (r: String)
        ensures
            r@ == handler_error_message(*self),
    {
        match self {
            HandlerError::MissingParam(p) => {
                let mut r = concat2("Missing '", p.as_str());
                r.append("' parameter");
                r
            },
            HandlerError::UnknownMethod { namespace, method } => {
                let mut r = concat2("Unknown ", namespace.as_str());
                r.append(" method: ");
                r.append(method.as_str());
                r
            },
            HandlerError::Denied(a) => a.message(),
            HandlerError::Refused(p) => p.message(),
            HandlerError::InvalidUrl(m) => string_of(m.as_str()),
            HandlerError::NoHost => "Invalid URL: no host".to_owned(),
            HandlerError::NoPort => "Invalid URL: no port".to_owned(),
            HandlerError::UnsupportedHttpMethod(m) => concat2("Unsupported HTTP method: ", m.as_str()),
            HandlerError::ServiceStub { service, method } => {
                let mut r = concat2("Service unavailable: ", service.as_str());
                r.append(".");
                r.append(method.as_str());
                r.append(" not implemented (stub)");
                r
            },
            HandlerError::RemindersUnavailable => "Reminders service not available on this platform".to_owned(),
            HandlerError::InvalidParams { method, detail } => {
                let mut r = concat2("Invalid parameters for reminders.", method.as_str());
                r.append(": ");
                r.append(detail.as_str());
                r
            },
        }
    }
}

/// The JSON-RPC code a handler error is answered with: refused paths,
/// connections and reminders lists get their own codes, a resource the
/// manifest does not declare and a refused service, command or variable are
/// permission errors, a service without a backend
/// is unavailable; any other error gets the code its message's words give.
pub open spec fn handler_error_code(e: HandlerError) -> ErrorCode {
    match e {
        HandlerError::Denied(a) => match a {
            AccessError::ReadDenied(_) => ErrorCode::PathDenied,
            AccessError::WriteDenied(_) => ErrorCode::PathDenied,
            AccessError::NetworkDenied(_, _) => ErrorCode::NetworkDenied,
            AccessError::ScopeDenied(_) => ErrorCode::ScopeViolation,
            _ => ErrorCode::PermissionDenied,
        },
        HandlerError::Refused(p) => match p {
            PolicyError::NoFsPermissions => ErrorCode::PermissionDenied,
            PolicyError::NoReadPermissions => ErrorCode::PermissionDenied,
            PolicyError::NoWritePermissions => ErrorCode::PermissionDenied,
            PolicyError::ReadDenied(_) => ErrorCode::PathDenied,
            PolicyError::WriteDenied(_) => ErrorCode::PathDenied,
            PolicyError::NoNetworkPermissions => ErrorCode::PermissionDenied,
            PolicyError::NoHostsAllowed => ErrorCode::NetworkDenied,
            PolicyError::NetworkDenied(_, _) => ErrorCode::NetworkDenied,
            PolicyError::ListNotInScope { .. } => ErrorCode::ScopeViolation,
            _ => ErrorCode::PermissionDenied,
        },
        HandlerError::ServiceStub { .. } => ErrorCode::ServiceUnavailable,
        HandlerError::RemindersUnavailable => ErrorCode::ServiceUnavailable,
        _ => classify_error(handler_error_message(e)),
    }
}

impl HandlerError {
    /// The JSON-RPC code the error is answered with.
    pub fn code(&self) -> (r: ErrorCode)
        ensures
            r == handler_error_code(*self),
    {
        match self {
            HandlerError::Denied(a) => match a {
                AccessError::ReadDenied(_) => ErrorCode::PathDenied,
                AccessError::WriteDenied(_) => ErrorCode::PathDenied,
                AccessError::NetworkDenied(_, _) => ErrorCode::NetworkDenied,
                AccessError::ScopeDenied(_) => ErrorCode::ScopeViolation,
                _ => ErrorCode::PermissionDenied,
            },
            HandlerError::Refused(p) => match p {
                PolicyError::NoFsPermissions => ErrorCode::PermissionDenied,
                PolicyError::NoReadPermissions => ErrorCode::PermissionDenied,
                PolicyError::NoWritePermissions => ErrorCode::PermissionDenied,
                PolicyError::ReadDenied(_) => ErrorCode::PathDenied,
                PolicyError::WriteDenied(_) => ErrorCode::PathDenied,
                PolicyError::NoNetworkPermissions => ErrorCode::PermissionDenied,
                PolicyError::NoHostsAllowed => ErrorCode::NetworkDenied,
                PolicyError::NetworkDenied(_, _) => ErrorCode::NetworkDenied,
                PolicyError::ListNotInScope { .. } => ErrorCode::ScopeViolation,
                _ => ErrorCode::PermissionDenied,
            },
            HandlerError::ServiceStub { .. } => ErrorCode::ServiceUnavailable,
            HandlerError::RemindersUnavailable => ErrorCode::ServiceUnavailable,
            _ => classify_error_exec(self.message().as_str()),
        }
    }
}

/// The message naming a missing parameter.
pub open spec fn missing_message(key: Seq<char>) -> Seq<char> {
    "Missing '"@ + key + "' parameter"@
}

/// The message naming an operation a namespace does not have.
pub open spec fn unknown_message(namespace: Seq<char>, method: Seq<char>) -> Seq<char> {
    "Unknown "@ + namespace + " method: "@ + method
}

/// A handler's outcome as plain values: what it hands back, or the message
/// of its error.
pub open spec fn outcome<T, V>(r: Result<T, HandlerError>, view: spec_fn(T) -> V) -> Result<V, Seq<char>> {
    match r {
        Ok(t) => Ok(view(t)),
        Err(e) => Err(handler_error_message(e)),
    }
}

// ---------------------------------------------------------------------------
// Parameters
// ---------------------------------------------------------------------------

/// The text of the string parameter `key`.
pub open spec fn param_text(params: serde_json::Value, key: Seq<char>) -> Option<Seq<char>> {
    match json_member(params, key) {
        Some(v) => json_text(v),
        None => None,
    }
}

/// The string parameter `key`, if present.
pub fn read_param(params: &serde_json::Value, key: &str) -> (r: Option<String>)
    ensures
        r matches Some(t) ==> param_text(*params, key@) == Some(t@),
        r is None ==> param_text(*params, key@) is None,
{
    match member(params, key) {
        Some(v) => text_of(&v),
        None => None,
    }
}

/// The string parameter `key`, which the request must carry.
pub fn require_param(params: &serde_json::Value, key: &str) -> (r: Result<String, HandlerError>)
    ensures
        r matches Ok(t) ==> param_text(*params, key@) == Some(t@),
        r matches Err(e) ==> param_text(*params, key@) is None && handler_error_message(e) == missing_message(key@),
{
    match read_param(params, key) {
        Some(t) => Ok(t),
        None => Err(HandlerError::MissingParam(string_of(key))),
    }
}

/// The texts among JSON documents, in order; other documents are skipped.
pub open spec fn texts_of(items: Seq<serde_json::Value>) -> Seq<Seq<char>>
    decreases items.len(),
{
    if items.len() == 0 {
        Seq::empty()
    } else {
        let rest = texts_of(items.drop_last());
        match json_text(items.last()) {
            Some(t) => rest.push(t),
            None => rest,
        }
    }
}

/// The texts among JSON documents, in order.
pub fn collect_texts(items: &Vec<serde_json::Value>) -> (r: Vec<String>)
    ensures
        strs(r@) == texts_of(items@),
{
    let mut r: Vec<String> = Vec::new();
    let mut i: usize = 0;
    while i < items.len()
        invariant
            i <= items@.len(),
            strs(r@) == texts_of(items@.subrange(0, i as int)),
        decreases items@.len() - i,
    {
        proof {
            assert(items@.subrange(0, i + 1).drop_last() == items@.subrange(0, i as int));
        }
        match text_of(&items[i]) {
            Some(t) => {
                r.push(t);
            },
            None => {},
        }
        i = i + 1;
    }
    proof {
        assert(items@.subrange(0, items@.len() as int) == items@);
    }
    r
}

/// The string items of the array parameter `key`; empty when it is absent.
pub open spec fn param_texts(params: serde_json::Value, key: Seq<char>) -> Seq<Seq<char>> {
    match json_member_items(params, key) {
        Some(items) => texts_of(items),
        None => Seq::empty(),
    }
}

/// The string-valued members of a list of JSON members, in order.
pub open spec fn text_pairs_of(members: Seq<(Seq<char>, serde_json::Value)>) -> Seq<(Seq<char>, Seq<char>)>
    decreases members.len(),
{
    if members.len() == 0 {
        Seq::empty()
    } else {
        let rest = text_pairs_of(members.drop_last());
        match json_text(members.last().1) {
            Some(t) => rest.push((members.last().0, t)),
            None => rest,
        }
    }
}

/// The string-valued members of the object parameter `key`; empty when it
/// is absent.
pub open spec fn param_pairs(params: serde_json::Value, key: Seq<char>) -> Seq<(Seq<char>, Seq<char>)> {
    match json_member_entries(params, key) {
        Some(members) => text_pairs_of(members),
        None => Seq::empty(),
    }
}

/// The contents of a list of string pairs.
pub open spec fn pairs_view(v: Seq<(String, String)>) -> Seq<(Seq<char>, Seq<char>)> {
    v.map_values(|p: (String, String)| (p.0@, p.1@))
}

/// The string-valued members of the object parameter `key`, in order.
pub fn read_param_pairs(params: &serde_json::Value, key: &str) -> (r: Vec<(String, String)>)
    ensures
        pairs_view(r@) == param_pairs(*params, key@),
{
    let mut r: Vec<(String, String)> = Vec::new();
    match member_entries(params, key) {
        None => r,
        Some(members) => {
            let ghost mv = members@.map_values(|p: (String, serde_json::Value)| (p.0@, p.1));
            let mut i: usize = 0;
            while i < members.len()
                invariant
                    i <= members@.len(),
                    mv == members@.map_values(|p: (String, serde_json::Value)| (p.0@, p.1)),
                    pairs_view(r@) == text_pairs_of(mv.subrange(0, i as int)),
                decreases members@.len() - i,
            {
                proof {
                    assert(mv.subrange(0, i + 1).drop_last() == mv.subrange(0, i as int));
                }
                let (k, v) = &members[i];
                match text_of(v) {
                    Some(t) => {
                        r.push((k.clone(), t));
                        proof {
                            assert(pairs_view(r@) == pairs_view(r@.drop_last()).push((k@, t@)));
                        }
                    },
                    None => {},
                }
                i = i + 1;
            }
            proof {
                assert(mv.subrange(0, mv.len() as int) == mv);
            }
            r
        },
    }
}

/// The string items of the array parameter `key`, in order.
pub fn read_param_texts(params: &serde_json::Value, key: &str) -> (r: Vec<String>)
    ensures
        strs(r@) == param_texts(*params, key@),
{
    match member_items(params, key) {
        Some(items) => collect_texts(&items),
        None => Vec::new(),
    }
}

/// `s` is the text `t`.
pub(crate) fn is_text(s: &str, t: &str) -> (r: bool)
    ensures
        r == (s@ == t@),
{
    chars_eq(chars_of(s).as_slice(), chars_of(t).as_slice())
}

/// An error naming an operation the namespace does not have.
pub(crate) fn unknown_method(namespace: &str, method: &str) -> (e: HandlerError)
    ensures
        handler_error_message(e) == unknown_message(namespace@, method@),
{
    HandlerError::UnknownMethod { namespace: string_of(namespace), method: string_of(method) }
}

// ---------------------------------------------------------------------------
// Refusals of the two policy engines, as messages
// ---------------------------------------------------------------------------

/// Why the manifest policy refuses to read the variable `name`, if it does.
pub open spec fn manifest_env_refusal(p: ManifestPermissions, name: Seq<char>) -> Option<Seq<char>> {
    match p.env {
        None => Some("No env permissions declared"@),
        Some(v) => if strs(v@).contains(name) {
            None
        } else {
            Some("Environment variable access denied: "@ + name)
        },
    }
}

/// Why the manifest policy refuses to run `command`, if it does.
pub open spec fn manifest_exec_refusal(p: ManifestPermissions, command: Seq<char>) -> Option<Seq<char>> {
    match p.exec_names {
        None => Some("No exec permissions declared"@),
        Some(v) => if exec_listed(strs(v@), command) {
            None
        } else {
            Some("Execution denied for command: "@ + command)
        },
    }
}

/// Why the permission set refuses to read `path`, if it does.
pub open spec fn read_refusal(p: PermissionsView, path: Seq<char>) -> Option<Seq<char>> {
    if path_allowed(path, p.read) {
        None
    } else {
        Some("Read access denied for path: "@ + path)
    }
}

/// Why the permission set refuses to write `path`, if it does.
pub open spec fn write_refusal(p: PermissionsView, path: Seq<char>) -> Option<Seq<char>> {
    if path_allowed(path, p.write) {
        None
    } else {
        Some("Write access denied for path: "@ + path)
    }
}

/// Why the permission set refuses a connection, if it does.
pub open spec fn network_refusal(p: PermissionsView, host: Seq<char>, port: u16) -> Option<Seq<char>> {
    if network_allowed(host, port, p.allow) {
        None
    } else {
        Some("Network access denied for "@ + network_target(host, port))
    }
}

/// Why the permission set refuses a service call, if it does.
pub open spec fn service_refusal(p: PermissionsView, service: Seq<char>, method: Seq<char>) -> Option<
    Seq<char>,
> {
    if service_allows(p.services, service, method) {
        None
    } else {
        Some("Service method '"@ + method + "' not allowed for service '"@ + service + "'"@)
    }
}

} // verus!
