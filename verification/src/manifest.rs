//! The skill manifest (`skill.yaml`): its model, its validation, and its
//! translation into a permission set.

use vstd::prelude::*;
use crate::permissions::{strs, ServicePermission, ServicePermissionView, FsPermissions as CoreFs,
    NetworkPermissions as CoreNetwork, Permissions as CorePermissions, PermissionsView, clone_strings};
use crate::scope::{Scope, ScopeView};
use crate::strmap::{StrMap, ViewClone};
use crate::policy::concat2;
use crate::text::{chars_of, chars_eq};

verus! {

/// Access level of a service.
#[derive(Debug, Clone, Copy, PartialEq, Eq, Structural)]
pub enum AccessLevel {
    Read,
    Write,
    ReadWrite,
    Send,
    Open,
}

/// The lowercase name of an access level, as permission sets spell it.
pub open spec fn level_name(l: AccessLevel) -> Seq<char> {
    match l {
        AccessLevel::Read => "read"@,
        AccessLevel::Write => "write"@,
        AccessLevel::ReadWrite => "readwrite"@,
        AccessLevel::Send => "send"@,
        AccessLevel::Open => "open"@,
    }
}

/// The name of an access level as it is printed in messages.
pub open spec fn level_debug_name(l: AccessLevel) -> Seq<char> {
    match l {
        AccessLevel::Read => "Read"@,
        AccessLevel::Write => "Write"@,
        AccessLevel::ReadWrite => "ReadWrite"@,
        AccessLevel::Send => "Send"@,
        AccessLevel::Open => "Open"@,
    }
}

impl AccessLevel {
    /// The lowercase name of the level.
    pub fn name(&self) -> (r: String)
        ensures
            r@ == level_name(*self),
    {
        match self {
            AccessLevel::Read => "read".to_owned(),
            AccessLevel::Write => "write".to_owned(),
            AccessLevel::ReadWrite => "readwrite".to_owned(),
            AccessLevel::Send => "send".to_owned(),
            AccessLevel::Open => "open".to_owned(),
        }
    }

    /// The name of the level as messages print it.
    pub fn debug_name(&self) -> (r: String)
        ensures
            r@ == level_debug_name(*self),
    {
        match self {
            AccessLevel::Read => "Read".to_owned(),
            AccessLevel::Write => "Write".to_owned(),
            AccessLevel::ReadWrite => "ReadWrite".to_owned(),
            AccessLevel::Send => "Send".to_owned(),
            AccessLevel::Open => "Open".to_owned(),
        }
    }
}

/// The JSON value a manifest gives as a service scope: an object, whose
/// entries are kept, or any other value.
#[derive(Debug, Clone)]
pub enum ScopeDoc {
    Object(Scope),
    Other,
}

/// What a scope document states: the entries of an object, or nothing for
/// another value.
pub open spec fn scope_doc_view(d: ScopeDoc) -> Option<ScopeView> {
    match d {
        ScopeDoc::Object(m) => Some(m@),
        ScopeDoc::Other => None,
    }
}

/// Access to one service in a manifest.
#[derive(Debug, Clone)]
pub struct ServiceAccess {
    pub access: AccessLevel,
    pub scope: Option<ScopeDoc>,
}

/// What a service entry states.
pub struct ServiceAccessView {
    pub access: AccessLevel,
    /// `None`: no scope; `Some(None)`: a scope that is not an object.
    pub scope: Option<Option<ScopeView>>,
}

impl View for ServiceAccess {
    type V = ServiceAccessView;

    open spec fn view(&self) -> ServiceAccessView {
        ServiceAccessView {
            access: self.access,
            scope: match self.scope {
                Some(d) => Some(scope_doc_view(d)),
                None => None,
            },
        }
    }
}

/// The services a manifest may request.
#[derive(Debug, Clone)]
pub struct ServicePermissions {
    pub reminders: Option<ServiceAccess>,
    pub calendar: Option<ServiceAccess>,
    pub browser: Option<ServiceAccess>,
    pub notifications: Option<ServiceAccess>,
    pub clipboard: Option<ServiceAccess>,
}

impl Default for ServicePermissions {
    /// No services.
    fn default() -> (s: Self)
        ensures
            s.reminders is None,
            s.calendar is None,
            s.browser is None,
            s.notifications is None,
            s.clipboard is None,
    {
        ServicePermissions { reminders: None, calendar: None, browser: None, notifications: None, clipboard: None }
    }
}

/// Filesystem patterns of a manifest.
#[derive(Debug, Clone)]
pub struct FsPermissions {
    pub read: Option<Vec<String>>,
    pub write: Option<Vec<String>>,
}

/// Network patterns of a manifest.
#[derive(Debug, Clone)]
pub struct NetworkPermissions {
    pub allow: Option<Vec<String>>,
}

/// Permissions requested by a manifest; every part is optional.
#[derive(Debug, Clone)]
pub struct Permissions {
    pub fs: Option<FsPermissions>,
    pub network: Option<NetworkPermissions>,
    pub services: Option<ServicePermissions>,
    /// The `exec` list of the manifest.
    pub exec_names: Option<Vec<String>>,
    pub env: Option<Vec<String>>,
}

impl Default for Permissions {
    /// No permissions at all.
    fn default() -> (p: Self)
        ensures
            p.fs is None,
            p.network is None,
            p.services is None,
            p.exec_names is None,
            p.env is None,
    {
        Permissions { fs: None, network: None, services: None, exec_names: None, env: None }
    }
}

/// A skill manifest.
#[derive(Debug, Clone)]
pub struct Manifest {
    pub name: String,
    pub version: String,
    pub description: String,
    pub author: String,
    pub entry: String,
    pub runtime: String,
    pub permissions: Permissions,
}

/// Why a manifest is invalid.
#[derive(Debug)]
pub enum ManifestError {
    EmptyName,
    EmptyVersion,
    EmptyEntry,
    EmptyRuntime,
    InvalidRuntime(String),
}

/// The runtimes a skill may name.
pub open spec fn valid_runtime(r: Seq<char>) -> bool {
    r == "bash"@ || r == "sh"@ || r == "python"@ || r == "python3"@ || r == "node"@
}

/// The message of a validation error.
pub open spec fn manifest_error_message(e: ManifestError) -> Seq<char> {
    match e {
        ManifestError::EmptyName => "Skill name cannot be empty"@,
        ManifestError::EmptyVersion => "Skill version cannot be empty"@,
        ManifestError::EmptyEntry => "Entry point cannot be empty"@,
        ManifestError::EmptyRuntime => "Runtime cannot be empty"@,
        ManifestError::InvalidRuntime(r) => "Invalid runtime '"@ + r@
            + "'. Must be one of: bash, sh, python, python3, node"@,
    }
}

impl ManifestError {
    /// The human-readable message of the error.
    pub fn message(&self) -> (r: String)
        ensures
            r@ == manifest_error_message(*self),
    {
        match self {
            ManifestError::EmptyName => "Skill name cannot be empty".to_owned(),
            ManifestError::EmptyVersion => "Skill version cannot be empty".to_owned(),
            ManifestError::EmptyEntry => "Entry point cannot be empty".to_owned(),
            ManifestError::EmptyRuntime => "Runtime cannot be empty".to_owned(),
            ManifestError::InvalidRuntime(r) => {
                let mut m = concat2("Invalid runtime '", r.as_str());
                m.append("'. Must be one of: bash, sh, python, python3, node");
                m
            },
        }
    }
}

// ---------------------------------------------------------------------------
// Translation into a permission set
// ---------------------------------------------------------------------------

/// The patterns of an optional list, or none.
pub open spec fn opt_strs(v: Option<Vec<String>>) -> Seq<Seq<char>> {
    match v {
        Some(l) => strs(l@),
        None => Seq::empty(),
    }
}

/// The scope a service permission gets from a manifest entry: the object's
/// entries, or no entries when the scope is absent or not an object.
pub open spec fn entry_scope(scope: Option<Option<ScopeView>>) -> ScopeView {
    match scope {
        Some(Some(m)) => m,
        _ => Map::empty(),
    }
}

/// The service permission a manifest entry grants.
pub open spec fn granted(a: ServiceAccessView) -> ServicePermissionView {
    ServicePermissionView { access: level_name(a.access), scope: entry_scope(a.scope) }
}

/// `m` with `name` granted when the entry is present.
pub open spec fn with_service(
    m: Map<Seq<char>, ServicePermissionView>,
    name: Seq<char>,
    a: Option<ServiceAccess>,
) -> Map<Seq<char>, ServicePermissionView> {
    match a {
        Some(x) => m.insert(name, granted(x@)),
        None => m,
    }
}

/// The service permissions a manifest grants, by service name.
pub open spec fn granted_services(s: Option<ServicePermissions>) -> Map<Seq<char>, ServicePermissionView> {
    match s {
        Some(sp) => with_service(
            with_service(
                with_service(
                    with_service(
                        with_service(Map::empty(), "reminders"@, sp.reminders),
                        "calendar"@,
                        sp.calendar,
                    ),
                    "browser"@,
                    sp.browser,
                ),
                "notifications"@,
                sp.notifications,
            ),
            "clipboard"@,
            sp.clipboard,
        ),
        None => Map::empty(),
    }
}

/// The permission set a manifest's permissions translate into.
pub open spec fn translated(p: Permissions) -> PermissionsView {
    PermissionsView {
        read: match p.fs {
            Some(fs) => opt_strs(fs.read),
            None => Seq::empty(),
        },
        write: match p.fs {
            Some(fs) => opt_strs(fs.write),
            None => Seq::empty(),
        },
        allow: match p.network {
            Some(n) => opt_strs(n.allow),
            None => Seq::empty(),
        },
        exec_names: opt_strs(p.exec_names),
        env: opt_strs(p.env),
        services: granted_services(p.services),
    }
}

/// A copy of an optional list of strings, or an empty list.
fn opt_strings(v: &Option<Vec<String>>) -> (r: Vec<String>)
    ensures
        strs(r@) == opt_strs(*v),
{
    match v {
        Some(l) => clone_strings(l),
        None => {
            let r: Vec<String> = Vec::new();
            assert(strs(r@) =~= Seq::<Seq<char>>::empty());
            r
        },
    }
}

/// The service permission a manifest entry grants.
fn grant(a: &ServiceAccess) -> (r: ServicePermission)
    ensures
        r@ == granted(a@),
{
    let scope = match &a.scope {
        Some(ScopeDoc::Object(m)) => m.clone(),
        _ => StrMap::new(),
    };
    ServicePermission { access: a.access.name(), scope }
}

/// Grants `name` in `m` when the entry is present.
fn add_service(m: &mut StrMap<ServicePermission>, name: &str, a: &Option<ServiceAccess>)
    ensures
        final(m)@ == with_service(old(m)@, name@, *a),
{
    match a {
        Some(x) => m.insert(name.to_owned(), grant(x)),
        None => {},
    }
}

impl Manifest {
    /// Checks that the name, version, entry and runtime are set and that
    /// the runtime is one of bash, sh, python, python3, node; the first
    /// failing check gives the error.
    pub fn validate(&self) -> (r: Result<(), ManifestError>)
        ensures
            match r {
                Ok(()) => self.name@.len() > 0 && self.version@.len() > 0 && self.entry@.len() > 0
                    && self.runtime@.len() > 0 && valid_runtime(self.runtime@),
                Err(ManifestError::EmptyName) => self.name@.len() == 0,
                Err(ManifestError::EmptyVersion) => self.name@.len() > 0 && self.version@.len() == 0,
                Err(ManifestError::EmptyEntry) => self.name@.len() > 0 && self.version@.len() > 0
                    && self.entry@.len() == 0,
                Err(ManifestError::EmptyRuntime) => self.name@.len() > 0 && self.version@.len() > 0
                    && self.entry@.len() > 0 && self.runtime@.len() == 0,
                Err(ManifestError::InvalidRuntime(rt)) => self.name@.len() > 0 && self.version@.len()
                    > 0 && self.entry@.len() > 0 && self.runtime@.len() > 0 && !valid_runtime(
                    self.runtime@,
                ) && rt@ == self.runtime@,
            },
    {
        if self.name.as_str().is_empty() {
            return Err(ManifestError::EmptyName);
        }
        if self.version.as_str().is_empty() {
            return Err(ManifestError::EmptyVersion);
        }
        if self.entry.as_str().is_empty() {
            return Err(ManifestError::EmptyEntry);
        }
        if self.runtime.as_str().is_empty() {
            return Err(ManifestError::EmptyRuntime);
        }
        let rt = chars_of(self.runtime.as_str());
        let r = rt.as_slice();
        if chars_eq(r, chars_of("bash").as_slice()) || chars_eq(r, chars_of("sh").as_slice())
            || chars_eq(r, chars_of("python").as_slice()) || chars_eq(r, chars_of("python3").as_slice())
            || chars_eq(r, chars_of("node").as_slice()) {
            Ok(())
        } else {
            Err(ManifestError::InvalidRuntime(self.runtime.clone()))
        }
    }

    /// The permission set the manifest requests: absent lists become empty
    /// lists, and each declared service is granted under its name with the
    /// lowercase name of its access level and, as scope, the entries of its
    /// scope object (none when the scope is absent or not an object).
    pub fn to_permissions(&self) -> (r: CorePermissions)
        ensures
            r@ == translated(self.permissions),
    {
        let p = &self.permissions;
        let read = match &p.fs {
            Some(fs) => opt_strings(&fs.read),
            None => opt_strings(&None),
        };
        let write = match &p.fs {
            Some(fs) => opt_strings(&fs.write),
            None => opt_strings(&None),
        };
        let allow = match &p.network {
            Some(n) => opt_strings(&n.allow),
            None => opt_strings(&None),
        };
        let mut services: StrMap<ServicePermission> = StrMap::new();
        match &p.services {
            Some(sp) => {
                add_service(&mut services, "reminders", &sp.reminders);
                add_service(&mut services, "calendar", &sp.calendar);
                add_service(&mut services, "browser", &sp.browser);
                add_service(&mut services, "notifications", &sp.notifications);
                add_service(&mut services, "clipboard", &sp.clipboard);
            },
            None => {},
        }
        CorePermissions {
            fs: CoreFs { read, write },
            network: CoreNetwork { allow },
            exec_names: opt_strings(&p.exec_names),
            env: opt_strings(&p.env),
            services,
        }
    }
}

} // verus!
