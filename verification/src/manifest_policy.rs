//! The policy engine of the command-line runner, which decides directly by
//! a skill manifest.

use vstd::prelude::*;
use crate::manifest::{AccessLevel, Manifest, Permissions, ScopeDoc, ServicePermissions, ServiceAccess,
    level_name, level_debug_name};
use crate::permissions::strs;
use crate::policy::{access_allows, access_allows_exec, exec_listed, exec_listed_exec, concat2, file_name_of,
    network_allowed, network_allowed_exec, network_target, path_allowed, path_allowed_exec, string_of};
use crate::scope::{ScopeEntry, ScopeItemView, list_admits, list_admits_exec, items_debug, items_debug_exec};
use crate::text::{decimal_exec, string_from_chars, chars_of, chars_eq};

verus! {

/// Why the manifest policy refused an access.
#[derive(Debug)]
pub enum PolicyError {
    NoFsPermissions,
    NoReadPermissions,
    NoWritePermissions,
    ReadDenied(String),
    WriteDenied(String),
    NoNetworkPermissions,
    NoHostsAllowed,
    NetworkDenied(String, u16),
    NoServicePermissions,
    UnknownService(String),
    ServiceNotPermitted(String),
    MethodNotAllowed { method: String, service: String, level: AccessLevel },
    RemindersNotPermitted,
    ListNotInScope { list: String, allowed: String },
    NoExecPermissions,
    ExecDenied(String),
    NoEnvPermissions,
    EnvDenied(String),
}

/// The message of a refusal.
pub open spec fn policy_error_message(e: PolicyError) -> Seq<char> {
    match e {
        PolicyError::NoFsPermissions => "No filesystem permissions declared"@,
        PolicyError::NoReadPermissions => "No read permissions declared"@,
        PolicyError::NoWritePermissions => "No write permissions declared"@,
        PolicyError::ReadDenied(p) => "Read access denied for path: "@ + p@,
        PolicyError::WriteDenied(p) => "Write access denied for path: "@ + p@,
        PolicyError::NoNetworkPermissions => "No network permissions declared"@,
        PolicyError::NoHostsAllowed => "No network hosts allowed"@,
        PolicyError::NetworkDenied(h, port) => "Network access denied for "@ + network_target(h@, port),
        PolicyError::NoServicePermissions => "No service permissions declared"@,
        PolicyError::UnknownService(s) => "Unknown service: "@ + s@,
        PolicyError::ServiceNotPermitted(s) => "Service '"@ + s@ + "' not permitted"@,
        PolicyError::MethodNotAllowed { method, service, level } => "Method '"@ + method@
            + "' not allowed for service '"@ + service@ + "' with access level "@ + level_debug_name(
            level,
        ),
        PolicyError::RemindersNotPermitted => "Reminders service not permitted"@,
        PolicyError::ListNotInScope { list, allowed } => "List '"@ + list@
            + "' not in allowed scope. Allowed lists: "@ + allowed@,
        PolicyError::NoExecPermissions => "No exec permissions declared"@,
        PolicyError::ExecDenied(c) => "Execution denied for command: "@ + c@,
        PolicyError::NoEnvPermissions => "No env permissions declared"@,
        PolicyError::EnvDenied(v) => "Environment variable access denied: "@ + v@,
    }
}

impl PolicyError {
    /// The human-readable message of the refusal.
    pub fn message(&self) -> (r: String)
        ensures
            r@ == policy_error_message(*self),
    {
        match self {
            PolicyError::NoFsPermissions => "No filesystem permissions declared".to_owned(),
            PolicyError::NoReadPermissions => "No read permissions declared".to_owned(),
            PolicyError::NoWritePermissions => "No write permissions declared".to_owned(),
            PolicyError::ReadDenied(p) => concat2("Read access denied for path: ", p.as_str()),
            PolicyError::WriteDenied(p) => concat2("Write access denied for path: ", p.as_str()),
            PolicyError::NoNetworkPermissions => "No network permissions declared".to_owned(),
            PolicyError::NoHostsAllowed => "No network hosts allowed".to_owned(),
            PolicyError::NetworkDenied(h, port) => {
                let mut r = concat2("Network access denied for ", h.as_str());
                r.append(":");
                let digits = string_from_chars(decimal_exec(*port as u64).as_slice());
                r.append(digits.as_str());
                r
            },
            PolicyError::NoServicePermissions => "No service permissions declared".to_owned(),
            PolicyError::UnknownService(s) => concat2("Unknown service: ", s.as_str()),
            PolicyError::ServiceNotPermitted(s) => {
                let mut r = concat2("Service '", s.as_str());
                r.append("' not permitted");
                r
            },
            PolicyError::MethodNotAllowed { method, service, level } => {
                let mut r = concat2("Method '", method.as_str());
                r.append("' not allowed for service '");
                r.append(service.as_str());
                r.append("' with access level ");
                r.append(level.debug_name().as_str());
                r
            },
            PolicyError::RemindersNotPermitted => "Reminders service not permitted".to_owned(),
            PolicyError::ListNotInScope { list, allowed } => {
                let mut r = concat2("List '", list.as_str());
                r.append("' not in allowed scope. Allowed lists: ");
                r.append(allowed.as_str());
                r
            },
            PolicyError::NoExecPermissions => "No exec permissions declared".to_owned(),
            PolicyError::ExecDenied(c) => concat2("Execution denied for command: ", c.as_str()),
            PolicyError::NoEnvPermissions => "No env permissions declared".to_owned(),
            PolicyError::EnvDenied(v) => concat2("Environment variable access denied: ", v.as_str()),
        }
    }
}

// ---------------------------------------------------------------------------
// Specifications
// ---------------------------------------------------------------------------

/// The declared read patterns, if both `fs` and `fs.read` are present.
pub open spec fn declared_read(p: Permissions) -> Option<Seq<Seq<char>>> {
    match p.fs {
        Some(fs) => match fs.read {
            Some(v) => Some(strs(v@)),
            None => None,
        },
        None => None,
    }
}

/// The declared write patterns, if both `fs` and `fs.write` are present.
pub open spec fn declared_write(p: Permissions) -> Option<Seq<Seq<char>>> {
    match p.fs {
        Some(fs) => match fs.write {
            Some(v) => Some(strs(v@)),
            None => None,
        },
        None => None,
    }
}

/// The declared host patterns, if both `network` and `network.allow` are
/// present.
pub open spec fn declared_allow(p: Permissions) -> Option<Seq<Seq<char>>> {
    match p.network {
        Some(n) => match n.allow {
            Some(v) => Some(strs(v@)),
            None => None,
        },
        None => None,
    }
}

/// The entry of a known service; `None` for an unknown service name.
pub open spec fn service_entry(sp: ServicePermissions, service: Seq<char>) -> Option<
    Option<ServiceAccess>,
> {
    if service == "reminders"@ {
        Some(sp.reminders)
    } else if service == "calendar"@ {
        Some(sp.calendar)
    } else if service == "browser"@ {
        Some(sp.browser)
    } else if service == "notifications"@ {
        Some(sp.notifications)
    } else if service == "clipboard"@ {
        Some(sp.clipboard)
    } else {
        None
    }
}

/// Whether the manifest admits `method` on `service`: services are
/// declared, the service is a known one and is declared, and its access
/// level admits the method.
pub open spec fn manifest_service_allows(p: Permissions, service: Seq<char>, method: Seq<char>) -> bool {
    match p.services {
        Some(sp) => match service_entry(sp, service) {
            Some(Some(a)) => access_allows(level_name(a.access), method),
            _ => false,
        },
        None => false,
    }
}

/// The `lists` array of the manifest's reminders scope, if the reminders
/// service is declared with an object scope that has one.
pub open spec fn manifest_scope_lists(p: Permissions) -> Option<Seq<ScopeItemView>> {
    match p.services {
        Some(sp) => match sp.reminders {
            Some(a) => match a.scope {
                Some(ScopeDoc::Object(m)) => if m@.contains_key("lists"@) {
                    m@["lists"@]
                } else {
                    None
                },
                _ => None,
            },
            None => None,
        },
        None => None,
    }
}

/// Whether the manifest's reminders scope admits a list: the reminders
/// service must be declared; a missing scope, a scope that is not an object,
/// and an object without a `lists` array admit every list; otherwise the
/// array must hold `"*"` or the list's name.
pub open spec fn manifest_scope_allows(p: Permissions, list: Seq<char>) -> bool {
    match p.services {
        Some(sp) => match sp.reminders {
            Some(a) => match a.scope {
                Some(ScopeDoc::Object(m)) => if m@.contains_key("lists"@) {
                    match m@["lists"@] {
                        Some(items) => list_admits(items, list),
                        None => true,
                    }
                } else {
                    true
                },
                _ => true,
            },
            None => false,
        },
        None => false,
    }
}

/// A policy engine that decides by a skill manifest.
#[derive(Debug, Clone)]
pub struct PolicyEngine {
    manifest: Manifest,
}

impl PolicyEngine {
    /// The manifest the engine decides by.
    pub closed spec fn spec_manifest(&self) -> Manifest {
        self.manifest
    }

    /// An engine for `manifest`.
    pub fn new(manifest: Manifest) -> (e: Self)
        ensures
            e.spec_manifest() == manifest,
    {
        PolicyEngine { manifest }
    }

    /// `Ok` when the declared read patterns admit `path`.
    pub fn check_file_read(&self, path: &str) -> (r: Result<(), PolicyError>)
        ensures
            match r {
                Ok(()) => declared_read(self.spec_manifest().permissions) matches Some(ps)
                    && path_allowed(path@, ps),
                Err(PolicyError::NoFsPermissions) => self.spec_manifest().permissions.fs is None,
                Err(PolicyError::NoReadPermissions) => self.spec_manifest().permissions.fs matches Some(
                    fs,
                ) && fs.read is None,
                Err(PolicyError::ReadDenied(p)) => declared_read(self.spec_manifest().permissions)
                    matches Some(ps) && !path_allowed(path@, ps) && p@ == path@,
                Err(_) => false,
            },
    {
        match &self.manifest.permissions.fs {
            None => Err(PolicyError::NoFsPermissions),
            Some(fs) => match &fs.read {
                None => Err(PolicyError::NoReadPermissions),
                Some(patterns) => if path_allowed_exec(path, patterns) {
                    Ok(())
                } else {
                    Err(PolicyError::ReadDenied(string_of(path)))
                },
            },
        }
    }

    /// `Ok` when the declared write patterns admit `path`.
    pub fn check_file_write(&self, path: &str) -> (r: Result<(), PolicyError>)
        ensures
            match r {
                Ok(()) => declared_write(self.spec_manifest().permissions) matches Some(ps)
                    && path_allowed(path@, ps),
                Err(PolicyError::NoFsPermissions) => self.spec_manifest().permissions.fs is None,
                Err(PolicyError::NoWritePermissions) => self.spec_manifest().permissions.fs matches Some(
                    fs,
                ) && fs.write is None,
                Err(PolicyError::WriteDenied(p)) => declared_write(self.spec_manifest().permissions)
                    matches Some(ps) && !path_allowed(path@, ps) && p@ == path@,
                Err(_) => false,
            },
    {
        match &self.manifest.permissions.fs {
            None => Err(PolicyError::NoFsPermissions),
            Some(fs) => match &fs.write {
                None => Err(PolicyError::NoWritePermissions),
                Some(patterns) => if path_allowed_exec(path, patterns) {
                    Ok(())
                } else {
                    Err(PolicyError::WriteDenied(string_of(path)))
                },
            },
        }
    }

    /// `Ok` when the declared host patterns admit `host:port`.
    pub fn check_network(&self, host: &str, port: u16) -> (r: Result<(), PolicyError>)
        ensures
            match r {
                Ok(()) => declared_allow(self.spec_manifest().permissions) matches Some(ps)
                    && network_allowed(host@, port, ps),
                Err(PolicyError::NoNetworkPermissions) => self.spec_manifest().permissions.network is None,
                Err(PolicyError::NoHostsAllowed) => self.spec_manifest().permissions.network matches Some(
                    n,
                ) && n.allow is None,
                Err(PolicyError::NetworkDenied(h, pt)) => declared_allow(self.spec_manifest().permissions)
                    matches Some(ps) && !network_allowed(host@, port, ps) && h@ == host@ && pt == port,
                Err(_) => false,
            },
    {
        match &self.manifest.permissions.network {
            None => Err(PolicyError::NoNetworkPermissions),
            Some(n) => match &n.allow {
                None => Err(PolicyError::NoHostsAllowed),
                Some(allow) => {
                    if network_allowed_exec(host, port, allow) {
                        Ok(())
                    } else {
                        Err(PolicyError::NetworkDenied(string_of(host), port))
                    }
                },
            },
        }
    }

    /// `Ok` when the manifest admits `method` on `service`. The parameters
    /// of the call do not enter the decision.
    pub fn check_service(&self, service: &str, method: &str, _params: &serde_json::Value) -> (r:
        Result<(), PolicyError>)
        ensures
            r is Ok == manifest_service_allows(self.spec_manifest().permissions, service@, method@),
            match r {
                Ok(()) => true,
                Err(PolicyError::NoServicePermissions) => self.spec_manifest().permissions.services is None,
                Err(PolicyError::UnknownService(s)) => self.spec_manifest().permissions.services matches Some(
                    sp,
                ) && service_entry(sp, service@) is None && s@ == service@,
                Err(PolicyError::ServiceNotPermitted(s)) => self.spec_manifest().permissions.services
                    matches Some(sp) && service_entry(sp, service@) == Some(None::<ServiceAccess>) && s@
                    == service@,
                Err(PolicyError::MethodNotAllowed { method: m, service: s, level }) => self.spec_manifest().permissions.services
                    matches Some(sp) && service_entry(sp, service@) matches Some(Some(a)) && a.access
                    == level && m@ == method@ && s@ == service@,
                Err(_) => false,
            },
    {
        let sp = match &self.manifest.permissions.services {
            None => {
                return Err(PolicyError::NoServicePermissions);
            },
            Some(sp) => sp,
        };
        let name = chars_of(service);
        let n = name.as_slice();
        let entry = if chars_eq(n, chars_of("reminders").as_slice()) {
            &sp.reminders
        } else if chars_eq(n, chars_of("calendar").as_slice()) {
            &sp.calendar
        } else if chars_eq(n, chars_of("browser").as_slice()) {
            &sp.browser
        } else if chars_eq(n, chars_of("notifications").as_slice()) {
            &sp.notifications
        } else if chars_eq(n, chars_of("clipboard").as_slice()) {
            &sp.clipboard
        } else {
            return Err(PolicyError::UnknownService(string_of(service)));
        };
        match entry {
            None => Err(PolicyError::ServiceNotPermitted(string_of(service))),
            Some(a) => {
                if access_allows_exec(a.access.name().as_str(), method) {
                    Ok(())
                } else {
                    Err(
                        PolicyError::MethodNotAllowed {
                            method: string_of(method),
                            service: string_of(service),
                            level: a.access,
                        },
                    )
                }
            },
        }
    }

    /// `Ok` when the reminders scope admits the list.
    pub fn check_reminders_scope(&self, list_name: &str) -> (r: Result<(), PolicyError>)
        ensures
            r is Ok == manifest_scope_allows(self.spec_manifest().permissions, list_name@),
            match r {
                Ok(()) => true,
                Err(PolicyError::NoServicePermissions) => self.spec_manifest().permissions.services is None,
                Err(PolicyError::RemindersNotPermitted) => self.spec_manifest().permissions.services
                    matches Some(sp) && sp.reminders is None,
                Err(PolicyError::ListNotInScope { list, allowed }) => list@ == list_name@ && (
                manifest_scope_lists(self.spec_manifest().permissions) matches Some(items)
                    && allowed@ == items_debug(items)),
                Err(_) => false,
            },
    {
        let sp = match &self.manifest.permissions.services {
            None => {
                return Err(PolicyError::NoServicePermissions);
            },
            Some(sp) => sp,
        };
        let a = match &sp.reminders {
            None => {
                return Err(PolicyError::RemindersNotPermitted);
            },
            Some(a) => a,
        };
        match &a.scope {
            Some(ScopeDoc::Object(m)) => match m.get("lists") {
                Some(ScopeEntry::List(items)) => if list_admits_exec(items, list_name) {
                    Ok(())
                } else {
                    Err(
                        PolicyError::ListNotInScope {
                            list: string_of(list_name),
                            allowed: items_debug_exec(items),
                        },
                    )
                },
                _ => Ok(()),
            },
            _ => Ok(()),
        }
    }

    /// `Ok` when the command's file name, or the command itself, is a
    /// declared executable.
    pub fn check_exec(&self, command: &str) -> (r: Result<(), PolicyError>)
        ensures
            match r {
                Ok(()) => self.spec_manifest().permissions.exec_names matches Some(v) && exec_listed(
                    strs(v@),
                    command@,
                ),
                Err(PolicyError::NoExecPermissions) => self.spec_manifest().permissions.exec_names is None,
                Err(PolicyError::ExecDenied(c)) => self.spec_manifest().permissions.exec_names matches Some(
                    v,
                ) && !exec_listed(strs(v@), command@) && c@ == command@,
                Err(_) => false,
            },
    {
        match &self.manifest.permissions.exec_names {
            None => Err(PolicyError::NoExecPermissions),
            Some(v) => {
                if exec_listed_exec(v, command) {
                    Ok(())
                } else {
                    Err(PolicyError::ExecDenied(string_of(command)))
                }
            },
        }
    }

    /// `Ok` when the variable is declared.
    pub fn check_env(&self, var_name: &str) -> (r: Result<(), PolicyError>)
        ensures
            match r {
                Ok(()) => self.spec_manifest().permissions.env matches Some(v) && strs(v@).contains(var_name@),
                Err(PolicyError::NoEnvPermissions) => self.spec_manifest().permissions.env is None,
                Err(PolicyError::EnvDenied(n)) => self.spec_manifest().permissions.env matches Some(v)
                    && !strs(v@).contains(var_name@) && n@ == var_name@,
                Err(_) => false,
            },
    {
        match &self.manifest.permissions.env {
            None => Err(PolicyError::NoEnvPermissions),
            Some(v) => if crate::permissions::contains_string(v, &string_of(var_name)) {
                Ok(())
            } else {
                Err(PolicyError::EnvDenied(string_of(var_name)))
            },
        }
    }
}

} // verus!
