//! The policy engine: decisions on paths, hosts, executables, environment
//! variables and services, taken from a permission set.

use vstd::prelude::*;
use crate::glob::{glob_accepts, glob_accepts_exec};
use crate::permissions::{Permissions, PermissionsView, ServicePermissionView};
use crate::scope::{ScopeEntry, ScopeView, list_admits, list_admits_exec};
use crate::strmap::StrMap;
use crate::text::{chars_of, chars_eq, contains, contains_exec, decimal, decimal_exec, ends_with, ends_with_exec, last_index_before, last_index_of_exec, replace_all, replace_all_exec, rsplit_once, slice_range, starts_with, starts_with_exec, string_from_chars, strip_prefix, strip_prefix_exec, strip_prefix_or_self, trim_start_char, trim_start_char_exec};

verus! {

// ---------------------------------------------------------------------------
// Specifications
// ---------------------------------------------------------------------------

/// Whether `pattern` admits `path`. A pattern naming `$SKILL_DIR`,
/// `$DATA_DIR` or `$WORK_DIR` admits only relative paths or absolute paths
/// through that directory (`/skill/`, `/data/`, `/work/`); the variable and
/// the slash after it are dropped from the pattern, and the path is
/// normalized before the glob match (leading slashes dropped for the skill
/// directory, the `/data/` or `/work/` prefix dropped for the others).
pub open spec fn pattern_admits(path: Seq<char>, pattern: Seq<char>) -> bool {
    if contains(pattern, "$SKILL_DIR"@) {
        !(starts_with(path, "/"@) && !contains(path, "/skill/"@)) && glob_accepts(
            replace_all(pattern, "$SKILL_DIR/"@, Seq::empty()),
            trim_start_char(path, '/'),
        )
    } else if contains(pattern, "$DATA_DIR"@) {
        !(starts_with(path, "/"@) && !contains(path, "/data/"@)) && glob_accepts(
            replace_all(pattern, "$DATA_DIR/"@, Seq::empty()),
            strip_prefix_or_self(path, "/data/"@),
        )
    } else if contains(pattern, "$WORK_DIR"@) {
        !(starts_with(path, "/"@) && !contains(path, "/work/"@)) && glob_accepts(
            replace_all(pattern, "$WORK_DIR/"@, Seq::empty()),
            strip_prefix_or_self(path, "/work/"@),
        )
    } else {
        glob_accepts(pattern, path)
    }
}

/// Some pattern of `patterns` admits `path`.
pub open spec fn path_allowed(path: Seq<char>, patterns: Seq<Seq<char>>) -> bool {
    exists|i: int| 0 <= i < patterns.len() && #[trigger] pattern_admits(path, patterns[i])
}

/// `s` split at its last `:` into host and port; no port if there is none.
pub open spec fn host_port(s: Seq<char>) -> (Seq<char>, Seq<char>) {
    match rsplit_once(s, ':') {
        Some(parts) => parts,
        None => (s, Seq::empty()),
    }
}

/// Whether a `host:port` pattern admits the target `host:port`: equal
/// strings always match; otherwise a pattern port must be absent, `*` (any
/// port) or equal to the target port, and the pattern host must be `*` (any
/// host), or `*.suffix`, which admits the subdomains of `suffix` (the hosts
/// ending in `.suffix`) and `suffix` itself, or else the target host itself.
pub open spec fn network_pattern_admits(target: Seq<char>, pattern: Seq<char>) -> bool {
    target == pattern || {
        let (th, tp) = host_port(target);
        let (ph, pp) = host_port(pattern);
        &&& (pp.len() == 0 || pp == "*"@ || pp == tp)
        &&& (ph == "*"@ || match strip_prefix(ph, "*."@) {
            Some(suffix) => ends_with(th, seq!['.'] + suffix) || th == suffix,
            None => th == ph,
        })
    }
}

/// The `host:port` text of a connection.
pub open spec fn network_target(host: Seq<char>, port: u16) -> Seq<char> {
    host + ":"@ + decimal(port as nat)
}

/// Some allowed pattern admits the connection.
pub open spec fn network_allowed(host: Seq<char>, port: u16, allow: Seq<Seq<char>>) -> bool {
    exists|i: int|
        0 <= i < allow.len() && #[trigger] network_pattern_admits(network_target(host, port), allow[i])
}

/// The final component of `path` as `std::path::Path::file_name` gives it,
/// as text.
pub uninterp spec fn path_file_name(path: Seq<char>) -> Option<Seq<char>>;

/// The name under which a command is checked: its file name, or the whole
/// command when it has none.
pub open spec fn command_name(command: Seq<char>) -> Seq<char> {
    match path_file_name(command) {
        Some(n) => n,
        None => command,
    }
}

/// Whether a list of executables admits `command`: it names the command's
/// file name, or the command exactly as given (an absolute path may be
/// listed).
pub open spec fn exec_listed(list: Seq<Seq<char>>, command: Seq<char>) -> bool {
    list.contains(command_name(command)) || list.contains(command)
}

/// Whether a list of executables admits `command`.
pub fn exec_listed_exec(list: &Vec<String>, command: &str) -> (r: bool)
    ensures
        r == exec_listed(crate::permissions::strs(list@), command@),
{
    let name = match file_name_of(command) {
        Some(n) => n,
        None => string_of(command),
    };
    crate::permissions::contains_string(list, &name) || crate::permissions::contains_string(
        list,
        &string_of(command),
    )
}

/// Actions that read: those named `list…` or `get…`.
pub open spec fn reads(action: Seq<char>) -> bool {
    starts_with(action, "list"@) || starts_with(action, "get"@)
}

/// Whether an access level admits an action: `read` admits the actions
/// that read; `write` those and the actions named `add…`, `create…`,
/// `update…` or `delete…` (writing implies reading); `readwrite` every
/// action; `send` and `open` only the action of that name; any other level
/// nothing.
pub open spec fn access_allows(access: Seq<char>, action: Seq<char>) -> bool {
    if access == "read"@ {
        reads(action)
    } else if access == "write"@ {
        reads(action) || starts_with(action, "add"@) || starts_with(action, "create"@)
            || starts_with(action, "update"@) || starts_with(action, "delete"@)
    } else if access == "readwrite"@ {
        true
    } else if access == "send"@ {
        action == "send"@
    } else if access == "open"@ {
        action == "open"@
    } else {
        false
    }
}

/// The service is permitted and its access level admits the action.
pub open spec fn service_allows(
    services: Map<Seq<char>, ServicePermissionView>,
    service: Seq<char>,
    action: Seq<char>,
) -> bool {
    services.contains_key(service) && access_allows(services[service].access, action)
}

/// Whether a scope admits a list: an empty scope admits every list; so does
/// a scope without a `lists` array; otherwise the array must hold `"*"` or
/// the list's name.
pub open spec fn scope_admits(scope: ScopeView, list: Seq<char>) -> bool {
    if scope.dom().len() == 0 {
        true
    } else if scope.contains_key("lists"@) {
        match scope["lists"@] {
            Some(items) => list_admits(items, list),
            None => true,
        }
    } else {
        true
    }
}

/// The reminders service is permitted and its scope admits the list.
pub open spec fn reminders_scope_allows(
    services: Map<Seq<char>, ServicePermissionView>,
    list: Seq<char>,
) -> bool {
    services.contains_key("reminders"@) && scope_admits(services["reminders"@].scope, list)
}

// ---------------------------------------------------------------------------
// Trusted path helper
// ---------------------------------------------------------------------------

/// A name without `/` that is not empty, `.` or `..`: a path of one normal
/// component, its own file name.
pub open spec fn plain_name(path: Seq<char>) -> bool {
    !path.contains('/') && path != Seq::<char>::empty() && path != seq!['.'] && path != seq!['.', '.']
}

/// The final component of `path`, from `std::path::Path::file_name` and
/// `OsStr::to_str`. The contract names the result, and states that a plain
/// name is its own file name.
#[verifier::external_body]
pub(crate) fn file_name_of(path: &str) -> (r: Option<String>)
    ensures
        match r {
            Some(n) => path_file_name(path@) == Some(n@) && (plain_name(path@) ==> n@ == path@),
            None => path_file_name(path@) is None && !plain_name(path@),
        },
{
    match std::path::Path::new(path).file_name() {
        Some(name) => match name.to_str() {
            Some(s) => Some(s.to_string()),
            None => None,
        },
        None => None,
    }
}

// ---------------------------------------------------------------------------
// Refusals
// ---------------------------------------------------------------------------

/// Why an access was refused.
#[derive(Debug)]
pub enum AccessError {
    ReadDenied(String),
    WriteDenied(String),
    NetworkDenied(String, u16),
    ExecDenied(String),
    EnvDenied(String),
    ServiceDenied { service: String, method: String },
    ScopeDenied(String),
}

/// The message of a refusal.
pub open spec fn access_error_message(e: AccessError) -> Seq<char> {
    match e {
        AccessError::ReadDenied(p) => "Read access denied for path: "@ + p@,
        AccessError::WriteDenied(p) => "Write access denied for path: "@ + p@,
        AccessError::NetworkDenied(h, port) => "Network access denied for "@ + network_target(
            h@,
            port,
        ),
        AccessError::ExecDenied(c) => "Execution denied for command: "@ + c@,
        AccessError::EnvDenied(v) => "Environment variable access denied: "@ + v@,
        AccessError::ServiceDenied { service, method } => "Service method '"@ + method@
            + "' not allowed for service '"@ + service@ + "'"@,
        AccessError::ScopeDenied(l) => "Reminders list '"@ + l@ + "' not in allowed scope"@,
    }
}

/// A string holding `s`.
pub fn string_of(s: &str) -> (r: String)
    ensures
        r@ == s@,
{
    s.to_owned()
}

/// `a` followed by `b`.
pub fn concat2(a: &str, b: &str) -> (r: String)
    ensures
        r@ == a@ + b@,
{
    let mut r = a.to_owned();
    r.append(b);
    r
}

impl AccessError {
    /// The human-readable message of the refusal.
    pub fn message(&self) -> (r: String)
        ensures
            r@ == access_error_message(*self),
    {
        match self {
            AccessError::ReadDenied(p) => concat2("Read access denied for path: ", p.as_str()),
            AccessError::WriteDenied(p) => concat2("Write access denied for path: ", p.as_str()),
            AccessError::NetworkDenied(h, port) => {
                let mut r = concat2("Network access denied for ", h.as_str());
                r.append(":");
                let digits = string_from_chars(decimal_exec(*port as u64).as_slice());
                r.append(digits.as_str());
                r
            },
            AccessError::ExecDenied(c) => concat2("Execution denied for command: ", c.as_str()),
            AccessError::EnvDenied(v) => concat2("Environment variable access denied: ", v.as_str()),
            AccessError::ServiceDenied { service, method } => {
                let mut r = concat2("Service method '", method.as_str());
                r.append("' not allowed for service '");
                r.append(service.as_str());
                r.append("'");
                r
            },
            AccessError::ScopeDenied(l) => {
                let mut r = concat2("Reminders list '", l.as_str());
                r.append("' not in allowed scope");
                r
            },
        }
    }
}

// ---------------------------------------------------------------------------
// Executable checks
// ---------------------------------------------------------------------------

/// Whether one path pattern admits a path.
pub fn pattern_admits_exec(path: &str, pattern: &str) -> (r: bool)
    ensures
        r == pattern_admits(path@, pattern@),
{
    proof {
        reveal_strlit("$SKILL_DIR/");
        reveal_strlit("$DATA_DIR/");
        reveal_strlit("$WORK_DIR/");
    }
    let pat = chars_of(pattern);
    let p = chars_of(path);
    let slash = chars_of("/");
    let empty: Vec<char> = Vec::new();
    let absolute = starts_with_exec(p.as_slice(), slash.as_slice());
    if contains_exec(pat.as_slice(), chars_of("$SKILL_DIR").as_slice()) {
        if absolute && !contains_exec(p.as_slice(), chars_of("/skill/").as_slice()) {
            return false;
        }
        let suffix = replace_all_exec(pat.as_slice(), chars_of("$SKILL_DIR/").as_slice(), empty.as_slice());
        let normalized = trim_start_char_exec(p.as_slice(), '/');
        glob_accepts_exec(suffix.as_slice(), normalized.as_slice())
    } else if contains_exec(pat.as_slice(), chars_of("$DATA_DIR").as_slice()) {
        if absolute && !contains_exec(p.as_slice(), chars_of("/data/").as_slice()) {
            return false;
        }
        let suffix = replace_all_exec(pat.as_slice(), chars_of("$DATA_DIR/").as_slice(), empty.as_slice());
        let normalized = match strip_prefix_exec(p.as_slice(), chars_of("/data/").as_slice()) {
            Some(rest) => rest,
            None => p,
        };
        glob_accepts_exec(suffix.as_slice(), normalized.as_slice())
    } else if contains_exec(pat.as_slice(), chars_of("$WORK_DIR").as_slice()) {
        if absolute && !contains_exec(p.as_slice(), chars_of("/work/").as_slice()) {
            return false;
        }
        let suffix = replace_all_exec(pat.as_slice(), chars_of("$WORK_DIR/").as_slice(), empty.as_slice());
        let normalized = match strip_prefix_exec(p.as_slice(), chars_of("/work/").as_slice()) {
            Some(rest) => rest,
            None => p,
        };
        glob_accepts_exec(suffix.as_slice(), normalized.as_slice())
    } else {
        glob_accepts_exec(pat.as_slice(), p.as_slice())
    }
}

/// Whether some pattern of `patterns` admits `path`.
pub fn path_allowed_exec(path: &str, patterns: &Vec<String>) -> (r: bool)
    ensures
        r == path_allowed(path@, crate::permissions::strs(patterns@)),
{
    let ghost ps = crate::permissions::strs(patterns@);
    let mut i: usize = 0;
    while i < patterns.len()
        invariant
            i <= patterns@.len(),
            ps == crate::permissions::strs(patterns@),
            forall|j: int| 0 <= j < i ==> !pattern_admits(path@, #[trigger] ps[j]),
        decreases patterns@.len() - i,
    {
        if pattern_admits_exec(path, patterns[i].as_str()) {
            assert(pattern_admits(path@, ps[i as int]));
            return true;
        }
        i = i + 1;
    }
    false
}

/// Whether a `host:port` pattern admits a target.
pub fn network_pattern_admits_exec(target: &[char], pattern: &[char]) -> (r: bool)
    ensures
        r == network_pattern_admits(target@, pattern@),
{
    if chars_eq(target, pattern) {
        return true;
    }
    let (th, tp) = split_host_port(target);
    let (ph, pp) = split_host_port(pattern);
    let star = chars_of("*");
    proof {
        reveal_strlit("*");
    }
    if pp.len() != 0 && !chars_eq(pp.as_slice(), star.as_slice()) && !chars_eq(pp.as_slice(), tp.as_slice()) {
        return false;
    }
    if chars_eq(ph.as_slice(), star.as_slice()) {
        return true;
    }
    match strip_prefix_exec(ph.as_slice(), chars_of("*.").as_slice()) {
        Some(suffix) => {
            let mut dotted: Vec<char> = Vec::new();
            dotted.push('.');
            let mut k: usize = 0;
            while k < suffix.len()
                invariant
                    k <= suffix@.len(),
                    dotted@ == seq!['.'] + suffix@.subrange(0, k as int),
                decreases suffix@.len() - k,
            {
                dotted.push(suffix[k]);
                assert(suffix@.subrange(0, k + 1) == suffix@.subrange(0, k as int).push(suffix@[k as int]));
                assert(dotted@ =~= seq!['.'] + suffix@.subrange(0, k + 1));
                k = k + 1;
            }
            assert(suffix@.subrange(0, suffix@.len() as int) == suffix@);
            ends_with_exec(th.as_slice(), dotted.as_slice()) || chars_eq(th.as_slice(), suffix.as_slice())
        },
        None => chars_eq(th.as_slice(), ph.as_slice()),
    }
}

/// `s` split at its last `:` into host and port.
pub fn split_host_port(s: &[char]) -> (r: (Vec<char>, Vec<char>))
    ensures
        (r.0@, r.1@) == host_port(s@),
{
    match last_index_of_exec(s, ':') {
        Some(i) => {
            proof {
                lemma_last_index_bound(s@, ':', s@.len() as int);
            }
            (slice_range(s, 0, i), slice_range(s, i + 1, s.len()))
        },
        None => (slice_range(s, 0, s.len()), Vec::new()),
    }
}

/// A found index is in bounds.
pub proof fn lemma_last_index_bound(s: Seq<char>, c: char, n: int)
    requires
        n <= s.len(),
    ensures
        last_index_before(s, c, n) matches Some(i) ==> 0 <= i < n,
    decreases n,
{
    if n > 0 && s[n - 1] != c {
        lemma_last_index_bound(s, c, n - 1);
    }
}

/// Whether the string `x` equals the text `lit`.
fn text_is(x: &[char], lit: &str) -> (r: bool)
    ensures
        r == (x@ == lit@),
{
    chars_eq(x, chars_of(lit).as_slice())
}

/// Whether an access level admits an action.
pub fn access_allows_exec(access: &str, action: &str) -> (r: bool)
    ensures
        r == access_allows(access@, action@),
{
    let a = chars_of(access);
    let m = chars_of(action);
    let ms = m.as_slice();
    if text_is(a.as_slice(), "read") {
        starts_with_exec(ms, chars_of("list").as_slice()) || starts_with_exec(ms, chars_of("get").as_slice())
    } else if text_is(a.as_slice(), "write") {
        starts_with_exec(ms, chars_of("list").as_slice()) || starts_with_exec(ms, chars_of("get").as_slice())
            || starts_with_exec(ms, chars_of("add").as_slice()) || starts_with_exec(ms, chars_of("create").as_slice())
            || starts_with_exec(ms, chars_of("update").as_slice()) || starts_with_exec(
            ms,
            chars_of("delete").as_slice(),
        )
    } else if text_is(a.as_slice(), "readwrite") {
        true
    } else if text_is(a.as_slice(), "send") {
        text_is(ms, "send")
    } else if text_is(a.as_slice(), "open") {
        text_is(ms, "open")
    } else {
        false
    }
}

/// Whether a scope admits a list.
pub fn scope_admits_exec(scope: &StrMap<ScopeEntry>, list: &str) -> (r: bool)
    ensures
        r == scope_admits(scope@, list@),
{
    if scope.is_empty() {
        return true;
    }
    match scope.get("lists") {
        Some(ScopeEntry::List(items)) => list_admits_exec(items, list),
        Some(ScopeEntry::Other) => true,
        None => true,
    }
}

/// Whether some pattern of `allow` admits `host:port`.
pub fn network_allowed_exec(host: &str, port: u16, allow: &Vec<String>) -> (r: bool)
    ensures
        r == network_allowed(host@, port, crate::permissions::strs(allow@)),
{
    let mut target = chars_of(host);
    target.push(':');
    let digits = decimal_exec(port as u64);
    let mut k: usize = 0;
    let ghost base = target@;
    while k < digits.len()
        invariant
            k <= digits@.len(),
            target@ == base + digits@.subrange(0, k as int),
        decreases digits@.len() - k,
    {
        target.push(digits[k]);
        k = k + 1;
    }
    proof {
        reveal_strlit(":");
        assert(digits@.subrange(0, digits@.len() as int) == digits@);
        assert(target@ =~= network_target(host@, port));
    }
    let ghost al = crate::permissions::strs(allow@);
    let mut i: usize = 0;
    while i < allow.len()
        invariant
            i <= allow@.len(),
            al == crate::permissions::strs(allow@),
            target@ == network_target(host@, port),
            forall|j: int|
                0 <= j < i ==> !network_pattern_admits(network_target(host@, port), #[trigger] al[j]),
        decreases allow@.len() - i,
    {
        if network_pattern_admits_exec(target.as_slice(), chars_of(allow[i].as_str()).as_slice()) {
            assert(network_pattern_admits(network_target(host@, port), al[i as int]));
            return true;
        }
        i = i + 1;
    }
    false
}

/// Policy engine for checking permissions.
#[derive(Debug)]
pub struct PolicyEngine {
    permissions: Permissions,
}

impl View for PolicyEngine {
    type V = PermissionsView;

    closed spec fn view(&self) -> PermissionsView {
        self.permissions@
    }
}

impl Clone for PolicyEngine {
    fn clone(&self) -> (r: Self)
        ensures
            r@ == self@,
    {
        PolicyEngine { permissions: self.permissions.clone() }
    }
}

impl PolicyEngine {
    /// A policy engine that decides by `permissions`.
    pub fn new(permissions: Permissions) -> (e: Self)
        ensures
            e@ == permissions@,
    {
        PolicyEngine { permissions }
    }

    /// The permission set the engine decides by.
    pub fn permissions(&self) -> (r: &Permissions)
        ensures
            r@ == self@,
    {
        &self.permissions
    }

    /// Whether `path` may be read.
    pub fn check_path_read(&self, path: &str) -> (r: bool)
        ensures
            r == path_allowed(path@, self@.read),
    {
        path_allowed_exec(path, &self.permissions.fs.read)
    }

    /// Whether `path` may be written.
    pub fn check_path_write(&self, path: &str) -> (r: bool)
        ensures
            r == path_allowed(path@, self@.write),
    {
        path_allowed_exec(path, &self.permissions.fs.write)
    }

    /// Whether a connection to `host` on `port` is allowed.
    pub fn check_network(&self, host: &str, port: u16) -> (r: bool)
        ensures
            r == network_allowed(host@, port, self@.allow),
    {
        network_allowed_exec(host, port, &self.permissions.network.allow)
    }

    /// Whether `command` may run: its file name, or the command itself,
    /// must be listed.
    pub fn check_exec(&self, command: &str) -> (r: bool)
        ensures
            r == exec_listed(self@.exec_names, command@),
    {
        exec_listed_exec(&self.permissions.exec_names, command)
    }

    /// Whether the environment variable `var_name` may be read.
    pub fn check_env(&self, var_name: &str) -> (r: bool)
        ensures
            r == self@.env.contains(var_name@),
    {
        crate::permissions::contains_string(&self.permissions.env, &string_of(var_name))
    }

    /// Whether `action` may be called on `service`.
    pub fn check_service(&self, service: &str, action: &str) -> (r: bool)
        ensures
            r == service_allows(self@.services, service@, action@),
    {
        match self.permissions.services.get(service) {
            Some(perm) => access_allows_exec(perm.access.as_str(), action),
            None => false,
        }
    }

    /// Whether the reminders list `list_name` is within the permitted scope.
    pub fn check_reminders_scope(&self, list_name: &str) -> (r: bool)
        ensures
            r == reminders_scope_allows(self@.services, list_name@),
    {
        match self.permissions.services.get("reminders") {
            Some(perm) => scope_admits_exec(&perm.scope, list_name),
            None => false,
        }
    }

    /// `Ok` when `path` may be read, else the refusal.
    pub fn check_file_read(&self, path: &str) -> (r: Result<(), AccessError>)
        ensures
            r is Ok == path_allowed(path@, self@.read),
            r matches Err(e) ==> e is ReadDenied && e->ReadDenied_0@ == path@,
    {
        if self.check_path_read(path) {
            Ok(())
        } else {
            Err(AccessError::ReadDenied(string_of(path)))
        }
    }

    /// `Ok` when `path` may be written, else the refusal.
    pub fn check_file_write(&self, path: &str) -> (r: Result<(), AccessError>)
        ensures
            r is Ok == path_allowed(path@, self@.write),
            r matches Err(e) ==> e is WriteDenied && e->WriteDenied_0@ == path@,
    {
        if self.check_path_write(path) {
            Ok(())
        } else {
            Err(AccessError::WriteDenied(string_of(path)))
        }
    }

    /// `Ok` when the connection is allowed, else the refusal.
    pub fn check_network_result(&self, host: &str, port: u16) -> (r: Result<(), AccessError>)
        ensures
            r is Ok == network_allowed(host@, port, self@.allow),
            r matches Err(e) ==> e is NetworkDenied && e->NetworkDenied_0@ == host@
                && e->NetworkDenied_1 == port,
    {
        if self.check_network(host, port) {
            Ok(())
        } else {
            Err(AccessError::NetworkDenied(string_of(host), port))
        }
    }

    /// `Ok` when `command` may run, else the refusal.
    pub fn check_exec_result(&self, command: &str) -> (r: Result<(), AccessError>)
        ensures
            r is Ok == exec_listed(self@.exec_names, command@),
            r matches Err(e) ==> e is ExecDenied && e->ExecDenied_0@ == command@,
    {
        if self.check_exec(command) {
            Ok(())
        } else {
            Err(AccessError::ExecDenied(string_of(command)))
        }
    }

    /// `Ok` when the variable may be read, else the refusal.
    pub fn check_env_result(&self, var_name: &str) -> (r: Result<(), AccessError>)
        ensures
            r is Ok == self@.env.contains(var_name@),
            r matches Err(e) ==> e is EnvDenied && e->EnvDenied_0@ == var_name@,
    {
        if self.check_env(var_name) {
            Ok(())
        } else {
            Err(AccessError::EnvDenied(string_of(var_name)))
        }
    }

    /// `Ok` when `method` may be called on `service`, else the refusal.
    /// The parameters of the call do not enter the decision.
    pub fn check_service_result(&self, service: &str, method: &str, _params: &serde_json::Value) -> (r:
        Result<(), AccessError>)
        ensures
            r is Ok == service_allows(self@.services, service@, method@),
            r matches Err(e) ==> e is ServiceDenied && e->service@ == service@ && e->method@
                == method@,
    {
        if self.check_service(service, method) {
            Ok(())
        } else {
            Err(AccessError::ServiceDenied { service: string_of(service), method: string_of(method) })
        }
    }

    /// `Ok` when the reminders list is within scope, else the refusal.
    pub fn check_reminders_scope_result(&self, list_name: &str) -> (r: Result<(), AccessError>)
        ensures
            r is Ok == reminders_scope_allows(self@.services, list_name@),
            r matches Err(e) ==> e is ScopeDenied && e->ScopeDenied_0@ == list_name@,
    {
        if self.check_reminders_scope(list_name) {
            Ok(())
        } else {
            Err(AccessError::ScopeDenied(string_of(list_name)))
        }
    }
}

} // verus!
