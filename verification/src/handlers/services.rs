//! The service namespaces: reminders, and the services without an
//! implementation yet.

use vstd::prelude::*;
use crate::handlers::{HandlerError, handler_error_message, outcome, unknown_message, is_text, unknown_method};
use crate::policy::string_of;
use crate::handlers::service_refusal;
use crate::permissions::PermissionsView;
use crate::policy::{PolicyEngine, reminders_scope_allows};
use crate::reminders::{ListParams, AddParams, UpdateParams, IdParams};

verus! {

/// The message of a service the broker does not implement yet.
pub open spec fn stub_message(service: Seq<char>, method: Seq<char>) -> Seq<char> {
    "Service unavailable: "@ + service + "."@ + method + " not implemented (stub)"@
}

/// What a call of a service without an implementation comes to: the policy's
/// refusal, or else the service's unavailability.
pub open spec fn stub_outcome(p: PermissionsView, service: Seq<char>, method: Seq<char>) -> Seq<char> {
    match service_refusal(p, service, method) {
        Some(m) => m,
        None => stub_message(service, method),
    }
}

/// Serves a call of a service without an implementation: it always fails.
fn serve_stub(service: &str, method: &str, params: &serde_json::Value, policy: &PolicyEngine) -> (r: Result<
    serde_json::Value,
    HandlerError,
>)
    ensures
        r matches Err(e) && handler_error_message(e) == stub_outcome(policy@, service@, method@),
{
    match policy.check_service_result(service, method, params) {
        Err(e) => Err(HandlerError::Denied(e)),
        Ok(()) => Err(HandlerError::ServiceStub { service: string_of(service), method: string_of(method) }),
    }
}

/// Serves a `calendar` call, which the broker does not implement yet.
pub fn handle_calendar(method: &str, params: &serde_json::Value, policy: &PolicyEngine) -> (r: Result<
    serde_json::Value,
    HandlerError,
>)
    ensures
        r matches Err(e) && handler_error_message(e) == stub_outcome(policy@, "calendar"@, method@),
{
    serve_stub("calendar", method, params, policy)
}

/// Serves a `browser` call, which the broker does not implement yet.
pub fn handle_browser(method: &str, params: &serde_json::Value, policy: &PolicyEngine) -> (r: Result<
    serde_json::Value,
    HandlerError,
>)
    ensures
        r matches Err(e) && handler_error_message(e) == stub_outcome(policy@, "browser"@, method@),
{
    serve_stub("browser", method, params, policy)
}

/// Serves a `notifications` call, which the broker does not implement yet.
pub fn handle_notifications(method: &str, params: &serde_json::Value, policy: &PolicyEngine) -> (r: Result<
    serde_json::Value,
    HandlerError,
>)
    ensures
        r matches Err(e) && handler_error_message(e) == stub_outcome(policy@, "notifications"@, method@),
{
    serve_stub("notifications", method, params, policy)
}

/// Serves a `clipboard` call, which the broker does not implement yet.
pub fn handle_clipboard(method: &str, params: &serde_json::Value, policy: &PolicyEngine) -> (r: Result<
    serde_json::Value,
    HandlerError,
>)
    ensures
        r matches Err(e) && handler_error_message(e) == stub_outcome(policy@, "clipboard"@, method@),
{
    serve_stub("clipboard", method, params, policy)
}

/// The operations of the reminders service.
#[derive(Debug, Clone, Copy, PartialEq, Eq, Structural)]
pub enum RemindersOp {
    List,
    Add,
    Update,
    Complete,
    Delete,
}

/// The operation a method name stands for.
pub open spec fn reminders_op_named(method: Seq<char>) -> Option<RemindersOp> {
    if method == "list"@ {
        Some(RemindersOp::List)
    } else if method == "add"@ {
        Some(RemindersOp::Add)
    } else if method == "update"@ {
        Some(RemindersOp::Update)
    } else if method == "complete"@ {
        Some(RemindersOp::Complete)
    } else if method == "delete"@ {
        Some(RemindersOp::Delete)
    } else {
        None
    }
}

/// What `reminders.<method>` comes to before its parameters are read: the
/// policy's refusal, the backend's unavailability, or the operation.
pub open spec fn reminders_outcome(
    p: PermissionsView,
    method: Seq<char>,
    available: bool,
) -> Result<RemindersOp, Seq<char>> {
    match service_refusal(p, "reminders"@, method) {
        Some(m) => Err(m),
        None => if !available {
            Err("Reminders service not available on this platform"@)
        } else {
            match reminders_op_named(method) {
                Some(op) => Ok(op),
                None => Err(unknown_message("reminders"@, method)),
            }
        },
    }
}

/// Decides a `reminders` call up to reading its parameters: the policy must
/// allow the method, the backend must be available and the method known.
pub fn handle_reminders(method: &str, params: &serde_json::Value, policy: &PolicyEngine, available: bool) -> (r:
    Result<RemindersOp, HandlerError>)
    ensures
        outcome(r, |op: RemindersOp| op) == reminders_outcome(policy@, method@, available),
{
    proof {
        reveal_strlit("list");
        reveal_strlit("add");
        reveal_strlit("update");
        reveal_strlit("complete");
        reveal_strlit("delete");
        reveal_strlit("reminders");
    }
    match policy.check_service_result("reminders", method, params) {
        Err(e) => return Err(HandlerError::Denied(e)),
        Ok(()) => {},
    }
    if !available {
        return Err(HandlerError::RemindersUnavailable);
    }
    if is_text(method, "list") {
        Ok(RemindersOp::List)
    } else if is_text(method, "add") {
        Ok(RemindersOp::Add)
    } else if is_text(method, "update") {
        Ok(RemindersOp::Update)
    } else if is_text(method, "complete") {
        Ok(RemindersOp::Complete)
    } else if is_text(method, "delete") {
        Ok(RemindersOp::Delete)
    } else {
        Err(unknown_method("reminders", method))
    }
}

/// Why the permission set refuses a reminders list, if it does.
pub open spec fn scope_refusal(p: PermissionsView, list: Seq<char>) -> Option<Seq<char>> {
    if reminders_scope_allows(p.services, list) {
        None
    } else {
        Some("Reminders list '"@ + list + "' not in allowed scope"@)
    }
}

/// Checks the list a `reminders.list` call names, if it names one.
pub fn check_list_scope(params: &ListParams, policy: &PolicyEngine) -> (r: Result<(), HandlerError>)
    ensures
        outcome(r, |u: ()| u) == match params.list {
            Some(l) => match scope_refusal(policy@, l@) {
                Some(m) => Err(m),
                None => Ok(()),
            },
            None => Ok(()),
        },
{
    match &params.list {
        Some(l) => match policy.check_reminders_scope_result(l.as_str()) {
            Ok(()) => Ok(()),
            Err(e) => Err(HandlerError::Denied(e)),
        },
        None => Ok(()),
    }
}

/// Checks the list a `reminders.add` call adds to.
pub fn check_add_scope(params: &AddParams, policy: &PolicyEngine) -> (r: Result<(), HandlerError>)
    ensures
        outcome(r, |u: ()| u) == match scope_refusal(policy@, params.list@) {
            Some(m) => Err(m),
            None => Ok(()),
        },
{
    match policy.check_reminders_scope_result(params.list.as_str()) {
        Ok(()) => Ok(()),
        Err(e) => Err(HandlerError::Denied(e)),
    }
}

/// A reminders call with its parameters read.
#[derive(Debug)]
pub enum RemindersCall {
    List(ListParams),
    Add(AddParams),
    Update(UpdateParams),
    Complete(IdParams),
    Delete(IdParams),
}

/// The operation a call performs.
pub open spec fn call_op(c: RemindersCall) -> RemindersOp {
    match c {
        RemindersCall::List(_) => RemindersOp::List,
        RemindersCall::Add(_) => RemindersOp::Add,
        RemindersCall::Update(_) => RemindersOp::Update,
        RemindersCall::Complete(_) => RemindersOp::Complete,
        RemindersCall::Delete(_) => RemindersOp::Delete,
    }
}

/// Why the permission set refuses the list a call names, if it does: a
/// listing confined to one list and an addition name a list; the other
/// calls name none.
pub open spec fn call_scope_refusal(p: PermissionsView, c: RemindersCall) -> Option<Seq<char>> {
    match c {
        RemindersCall::List(l) => match l.list {
            Some(name) => scope_refusal(p, name@),
            None => None,
        },
        RemindersCall::Add(a) => scope_refusal(p, a.list@),
        _ => None,
    }
}

/// What a reminders call comes to: the policy's refusal, the backend's
/// unavailability or an unknown method first; then parameters that could
/// not be read; then a list outside the declared scope; otherwise the call,
/// to be handed to the backend.
pub open spec fn reminders_decision(
    p: PermissionsView,
    method: Seq<char>,
    available: bool,
    parsed: Result<RemindersCall, HandlerError>,
) -> Result<RemindersCall, Seq<char>> {
    match reminders_outcome(p, method, available) {
        Err(m) => Err(m),
        Ok(_) => match parsed {
            Err(e) => Err(handler_error_message(e)),
            Ok(c) => match call_scope_refusal(p, c) {
                Some(m) => Err(m),
                None => Ok(c),
            },
        },
    }
}

/// Decides a reminders call: the policy must allow the method, the backend
/// must be available and the method known, the parameters (`parsed`, read
/// for the operation the method names) must have been read, and the list
/// they name must lie in the declared scope. Only then is the call handed
/// back for the backend; every refusal comes before it.
pub fn serve_reminders(
    method: &str,
    params: &serde_json::Value,
    policy: &PolicyEngine,
    available: bool,
    parsed: Result<RemindersCall, HandlerError>,
) -> (r: Result<RemindersCall, HandlerError>)
    requires
        parsed matches Ok(c) ==> reminders_op_named(method@) == Some(call_op(c)),
    ensures
        outcome(r, |c: RemindersCall| c) == reminders_decision(policy@, method@, available, parsed),
{
    match handle_reminders(method, params, policy, available) {
        Err(e) => Err(e),
        Ok(_) => match parsed {
            Err(e) => Err(e),
            Ok(call) => {
                let checked = match &call {
                    RemindersCall::List(l) => check_list_scope(l, policy),
                    RemindersCall::Add(a) => check_add_scope(a, policy),
                    _ => Ok(()),
                };
                match checked {
                    Err(e) => Err(e),
                    Ok(()) => Ok(call),
                }
            },
        },
    }
}

} // verus!
