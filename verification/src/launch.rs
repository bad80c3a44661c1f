//! How a skill or a sandboxed command is started: the policy document handed
//! to the interposition library, and the launch plan (program, arguments,
//! directory, environment) that the caller turns into a process.

use vstd::prelude::*;
use crate::json::{json_quoted, quoted};
use crate::manifest::{Manifest, Permissions as ManifestPermissions};
use crate::paths::{clone_path, joined_path, join_path};
use crate::permissions::strs;
use crate::policy::{concat2, string_of};
use crate::strmap::StrMap;
use crate::permissions::PermissionsView;
use crate::sandbox::{Sandbox, SandboxConfig};

verus! {

// ---------------------------------------------------------------------------
// The policy document
// ---------------------------------------------------------------------------

/// The items of a JSON array of strings, separated by commas.
pub open spec fn json_items(items: Seq<Seq<char>>) -> Seq<char>
    decreases items.len(),
{
    if items.len() == 0 {
        Seq::empty()
    } else if items.len() == 1 {
        json_quoted(items[0])
    } else {
        json_items(items.drop_last()) + ","@ + json_quoted(items.last())
    }
}

/// A JSON array of strings.
pub open spec fn json_list(items: Seq<Seq<char>>) -> Seq<char> {
    "["@ + json_items(items) + "]"@
}

/// The policy document of the interposition library: compact JSON, with the
/// members in the order `serde_json` keeps them (sorted).
pub open spec fn policy_document(
    read: Seq<Seq<char>>,
    write: Seq<Seq<char>>,
    allow: Seq<Seq<char>>,
    exec: Seq<Seq<char>>,
) -> Seq<char> {
    "{\"exec\":"@ + json_list(exec) + ",\"fs\":{\"read\":"@ + json_list(read) + ",\"write\":"@
        + json_list(write) + "},\"network\":{\"allow\":"@ + json_list(allow) + "}}"@
}

/// A JSON array of strings.
pub fn json_list_exec(items: &Vec<String>) -> (r: String)
    ensures
        r@ == json_list(strs(items@)),
{
    let mut body = String::new();
    let mut i: usize = 0;
    proof {
        assert(strs(items@).subrange(0, 0) =~= Seq::<Seq<char>>::empty());
        reveal_strlit("");
    }
    while i < items.len()
        invariant
            i <= items@.len(),
            body@ == json_items(strs(items@).subrange(0, i as int)),
        decreases items@.len() - i,
    {
        let q = quoted(items[i].as_str());
        let ghost prefix = strs(items@).subrange(0, i as int);
        let ghost next = strs(items@).subrange(0, i + 1);
        proof {
            assert(next.drop_last() == prefix);
            assert(next.last() == items@[i as int]@);
        }
        if i == 0 {
            body = q;
            proof {
                assert(next.len() == 1);
            }
        } else {
            body.append(",");
            body.append(q.as_str());
        }
        i = i + 1;
    }
    proof {
        assert(strs(items@).subrange(0, items@.len() as int) == strs(items@));
    }
    let mut r = concat2("[", body.as_str());
    r.append("]");
    r
}

/// The policy document for four lists of patterns.
pub fn policy_document_exec(read: &Vec<String>, write: &Vec<String>, allow: &Vec<String>, exec: &Vec<String>) -> (r:
    String)
    ensures
        r@ == policy_document(strs(read@), strs(write@), strs(allow@), strs(exec@)),
{
    let mut r = concat2("{\"exec\":", json_list_exec(exec).as_str());
    r.append(",\"fs\":{\"read\":");
    r.append(json_list_exec(read).as_str());
    r.append(",\"write\":");
    r.append(json_list_exec(write).as_str());
    r.append("},\"network\":{\"allow\":");
    r.append(json_list_exec(allow).as_str());
    r.append("}}");
    r
}

/// The lists of a manifest as the policy document names them; an absent
/// list is empty.
pub open spec fn manifest_lists(p: ManifestPermissions) -> (Seq<Seq<char>>, Seq<Seq<char>>, Seq<Seq<char>>, Seq<Seq<char>>) {
    let read = match p.fs {
        Some(f) => crate::manifest::opt_strs(f.read),
        None => Seq::empty(),
    };
    let write = match p.fs {
        Some(f) => crate::manifest::opt_strs(f.write),
        None => Seq::empty(),
    };
    let allow = match p.network {
        Some(n) => crate::manifest::opt_strs(n.allow),
        None => Seq::empty(),
    };
    (read, write, allow, crate::manifest::opt_strs(p.exec_names))
}

/// A copy of an optional list, or an empty list.
fn list_or_empty(v: &Option<Vec<String>>) -> (r: Vec<String>)
    ensures
        strs(r@) == crate::manifest::opt_strs(*v),
{
    match v {
        Some(l) => crate::permissions::clone_strings(l),
        None => Vec::new(),
    }
}

/// The policy document of a manifest's permissions.
pub fn serialize_manifest_policy(manifest: &Manifest) -> (r: String)
    ensures
        r@ == ({
            let (read, write, allow, exec) = manifest_lists(manifest.permissions);
            policy_document(read, write, allow, exec)
        }),
{
    let p = &manifest.permissions;
    let (read, write) = match &p.fs {
        Some(f) => (list_or_empty(&f.read), list_or_empty(&f.write)),
        None => (Vec::new(), Vec::new()),
    };
    let allow = match &p.network {
        Some(n) => list_or_empty(&n.allow),
        None => Vec::new(),
    };
    let exec = list_or_empty(&p.exec_names);
    proof {
        assert(strs(Seq::<String>::empty()) =~= Seq::<Seq<char>>::empty());
    }
    policy_document_exec(&read, &write, &allow, &exec)
}

// ---------------------------------------------------------------------------
// Launch plans
// ---------------------------------------------------------------------------

/// An argument or environment value: a text, or a path handed on as it is.
#[derive(Debug)]
pub enum OsText {
    Text(String),
    Path(std::path::PathBuf),
}

/// What an argument states.
pub enum OsTextView {
    Text(Seq<char>),
    Path(std::path::PathBuf),
}

/// What an argument states.
pub open spec fn os_text_view(a: OsText) -> OsTextView {
    match a {
        OsText::Text(s) => OsTextView::Text(s@),
        OsText::Path(p) => OsTextView::Path(p),
    }
}

/// How to start a process.
#[derive(Debug)]
pub struct LaunchPlan {
    pub program: OsText,
    pub args: Vec<OsText>,
    pub current_dir: Option<std::path::PathBuf>,
    /// Start from an empty environment.
    pub clear_env: bool,
    /// Variables to set, in order; a later one overrides an earlier one.
    pub env: Vec<(String, OsText)>,
    /// Put the process in a process group of its own.
    pub new_process_group: bool,
}

/// What a launch plan states.
pub struct LaunchPlanView {
    pub program: OsTextView,
    pub args: Seq<OsTextView>,
    pub current_dir: Option<std::path::PathBuf>,
    pub clear_env: bool,
    pub env: Seq<(Seq<char>, OsTextView)>,
    pub new_process_group: bool,
}

/// The arguments of a plan as plain values.
pub open spec fn args_view(v: Seq<OsText>) -> Seq<OsTextView> {
    v.map_values(|a: OsText| os_text_view(a))
}

/// The variables of a plan as plain values.
pub open spec fn env_view(v: Seq<(String, OsText)>) -> Seq<(Seq<char>, OsTextView)> {
    v.map_values(|p: (String, OsText)| (p.0@, os_text_view(p.1)))
}

impl View for LaunchPlan {
    type V = LaunchPlanView;

    open spec fn view(&self) -> LaunchPlanView {
        LaunchPlanView {
            program: os_text_view(self.program),
            args: args_view(self.args@),
            current_dir: self.current_dir,
            clear_env: self.clear_env,
            env: env_view(self.env@),
            new_process_group: self.new_process_group,
        }
    }
}

/// A text argument.
pub open spec fn t(s: Seq<char>) -> OsTextView {
    OsTextView::Text(s)
}

/// A path argument.
pub open spec fn pth(p: std::path::PathBuf) -> OsTextView {
    OsTextView::Path(p)
}

fn text(s: &str) -> (r: OsText)
    ensures
        os_text_view(r) == t(s@),
{
    OsText::Text(string_of(s))
}

fn path(p: &std::path::PathBuf) -> (r: OsText)
    ensures
        os_text_view(r) == pth(*p),
{
    OsText::Path(clone_path(p))
}

/// Appends a text argument.
fn push_text(args: &mut Vec<OsText>, s: &str)
    ensures
        args_view(final(args)@) == args_view(old(args)@).push(t(s@)),
{
    args.push(text(s));
    proof {
        assert(args_view(args@) =~= args_view(old(args)@).push(t(s@)));
    }
}

/// Appends a path argument.
fn push_path(args: &mut Vec<OsText>, p: &std::path::PathBuf)
    ensures
        args_view(final(args)@) == args_view(old(args)@).push(pth(*p)),
{
    args.push(path(p));
    proof {
        assert(args_view(args@) =~= args_view(old(args)@).push(pth(*p)));
    }
}

/// Appends a variable.
fn push_var(env: &mut Vec<(String, OsText)>, name: &str, value: OsText)
    ensures
        env_view(final(env)@) == env_view(old(env)@).push((name@, os_text_view(value))),
{
    let ghost v = os_text_view(value);
    env.push((string_of(name), value));
    proof {
        assert(env_view(env@) =~= env_view(old(env)@).push((name@, v)));
    }
}

/// The declared variables that are set in the caller's environment, each as
/// `--setenv NAME VALUE`, in the order of the declaration.
pub open spec fn setenv_args(names: Seq<Seq<char>>, host: Map<Seq<char>, Seq<char>>) -> Seq<OsTextView>
    decreases names.len(),
{
    if names.len() == 0 {
        Seq::empty()
    } else {
        let rest = setenv_args(names.drop_last(), host);
        let n = names.last();
        if host.contains_key(n) {
            rest + seq![t("--setenv"@), t(n), t(host[n])]
        } else {
            rest
        }
    }
}

/// The declared variables that are set in the caller's environment, with
/// their values, in the order of the declaration.
pub open spec fn passed_vars(names: Seq<Seq<char>>, host: Map<Seq<char>, Seq<char>>) -> Seq<(Seq<char>, OsTextView)>
    decreases names.len(),
{
    if names.len() == 0 {
        Seq::empty()
    } else {
        let rest = passed_vars(names.drop_last(), host);
        let n = names.last();
        if host.contains_key(n) {
            rest.push((n, t(host[n])))
        } else {
            rest
        }
    }
}

/// Appends `--setenv NAME VALUE` for each declared variable that is set.
fn push_setenv_args(args: &mut Vec<OsText>, names: &Option<Vec<String>>, host: &StrMap<String>)
    ensures
        args_view(final(args)@) == args_view(old(args)@) + setenv_args(
            crate::manifest::opt_strs(*names),
            host@,
        ),
{
    match names {
        None => {
            proof {
                assert(args_view(args@) + Seq::<OsTextView>::empty() =~= args_view(args@));
            }
        },
        Some(list) => {
            let ghost start = args_view(args@);
            let mut i: usize = 0;
            proof {
                assert(strs(list@).subrange(0, 0) =~= Seq::<Seq<char>>::empty());
                assert(start + Seq::<OsTextView>::empty() =~= start);
            }
            while i < list.len()
                invariant
                    i <= list@.len(),
                    args_view(args@) == start + setenv_args(strs(list@).subrange(0, i as int), host@),
                decreases list@.len() - i,
            {
                let ghost prefix = strs(list@).subrange(0, i as int);
                let ghost next = strs(list@).subrange(0, i + 1);
                proof {
                    assert(next.drop_last() == prefix);
                    assert(next.last() == list@[i as int]@);
                }
                match host.get(list[i].as_str()) {
                    Some(value) => {
                        let ghost before = args_view(args@);
                        push_text(args, "--setenv");
                        push_text(args, list[i].as_str());
                        push_text(args, value.as_str());
                        proof {
                            assert(args_view(args@) =~= before + seq![
                                t("--setenv"@),
                                t(list@[i as int]@),
                                t(value@),
                            ]);
                            assert(start + setenv_args(next, host@) =~= start + setenv_args(
                                prefix,
                                host@,
                            ) + seq![t("--setenv"@), t(list@[i as int]@), t(value@)]);
                        }
                    },
                    None => {},
                }
                i = i + 1;
            }
            proof {
                assert(strs(list@).subrange(0, list@.len() as int) == strs(list@));
            }
        },
    }
}

/// Appends each declared variable that is set, with its value.
fn push_passed_vars(env: &mut Vec<(String, OsText)>, names: &Option<Vec<String>>, host: &StrMap<String>)
    ensures
        env_view(final(env)@) == env_view(old(env)@) + passed_vars(crate::manifest::opt_strs(*names), host@),
{
    match names {
        None => {
            proof {
                assert(env_view(env@) + Seq::<(Seq<char>, OsTextView)>::empty() =~= env_view(env@));
            }
        },
        Some(list) => {
            let ghost start = env_view(env@);
            let mut i: usize = 0;
            proof {
                assert(strs(list@).subrange(0, 0) =~= Seq::<Seq<char>>::empty());
                assert(start + Seq::<(Seq<char>, OsTextView)>::empty() =~= start);
            }
            while i < list.len()
                invariant
                    i <= list@.len(),
                    env_view(env@) == start + passed_vars(strs(list@).subrange(0, i as int), host@),
                decreases list@.len() - i,
            {
                let ghost prefix = strs(list@).subrange(0, i as int);
                let ghost next = strs(list@).subrange(0, i + 1);
                proof {
                    assert(next.drop_last() == prefix);
                    assert(next.last() == list@[i as int]@);
                }
                match host.get(list[i].as_str()) {
                    Some(value) => {
                        let ghost before = env_view(env@);
                        push_var(env, list[i].as_str(), OsText::Text(string_of(value.as_str())));
                        proof {
                            assert(start + passed_vars(next, host@) =~= (start + passed_vars(
                                prefix,
                                host@,
                            )).push((list@[i as int]@, t(value@))));
                        }
                    },
                    None => {},
                }
                i = i + 1;
            }
            proof {
                assert(strs(list@).subrange(0, list@.len() as int) == strs(list@));
            }
        },
    }
}

/// The arguments of `bwrap` before the declared variables: isolation, the
/// read-only system directories, the skill, work and data directories, and
/// the fixed variables.
pub open spec fn bwrap_base_args(
    skill: std::path::PathBuf,
    work: std::path::PathBuf,
    data: std::path::PathBuf,
    socket: std::path::PathBuf,
) -> Seq<OsTextView> {
    seq![
        t("--unshare-all"@), t("--share-net"@), t("--die-with-parent"@),
        t("--ro-bind"@), t("/usr"@), t("/usr"@),
        t("--ro-bind"@), t("/lib"@), t("/lib"@),
        t("--ro-bind"@), t("/lib64"@), t("/lib64"@),
        t("--ro-bind"@), t("/bin"@), t("/bin"@),
        t("--ro-bind"@), t("/sbin"@), t("/sbin"@),
        t("--tmpfs"@), t("/tmp"@), t("--proc"@), t("/proc"@), t("--dev"@), t("/dev"@),
        t("--ro-bind"@), pth(skill), t("/skill"@),
        t("--bind"@), pth(work), t("/work"@),
        t("--bind"@), pth(data), t("/data"@),
        t("--chdir"@), t("/work"@),
        t("--unsetenv"@), t("HOME"@),
        t("--setenv"@), t("SKILL_DIR"@), t("/skill"@),
        t("--setenv"@), t("WORK_DIR"@), t("/work"@),
        t("--setenv"@), t("DATA_DIR"@), t("/data"@),
        t("--setenv"@), t("SANDBOX_SOCKET"@), pth(socket),
    ]
}

/// Appends the arguments of `tail` to `args`.
fn append_args(args: &mut Vec<OsText>, tail: Vec<OsText>)
    ensures
        args_view(final(args)@) == args_view(old(args)@) + args_view(tail@),
{
    let ghost t0 = tail@;
    let mut tail = tail;
    args.append(&mut tail);
    proof {
        assert(args@ == old(args)@ + t0);
        assert(args_view(args@) =~= args_view(old(args)@) + args_view(t0));
    }
}

/// Isolation and the read-only system directories.
fn bwrap_system_args() -> (r: Vec<OsText>)
    ensures
        args_view(r@) == bwrap_base_args(
            arbitrary(),
            arbitrary(),
            arbitrary(),
            arbitrary(),
        ).subrange(0, 24),
{
    let r = vec![
        text("--unshare-all"), text("--share-net"), text("--die-with-parent"),
        text("--ro-bind"), text("/usr"), text("/usr"),
        text("--ro-bind"), text("/lib"), text("/lib"),
        text("--ro-bind"), text("/lib64"), text("/lib64"),
        text("--ro-bind"), text("/bin"), text("/bin"),
        text("--ro-bind"), text("/sbin"), text("/sbin"),
        text("--tmpfs"), text("/tmp"), text("--proc"), text("/proc"), text("--dev"), text("/dev"),
    ];
    assert(args_view(r@) =~= bwrap_base_args(arbitrary(), arbitrary(), arbitrary(), arbitrary()).subrange(0, 24));
    r
}

/// The skill, work and data directories.
fn bwrap_mount_args(skill: &std::path::PathBuf, work: &std::path::PathBuf, data: &std::path::PathBuf) -> (r: Vec<
    OsText,
>)
    ensures
        forall|socket: std::path::PathBuf|
            args_view(r@) == #[trigger] bwrap_base_args(*skill, *work, *data, socket).subrange(24, 35),
{
    let r = vec![
        text("--ro-bind"), path(skill), text("/skill"),
        text("--bind"), path(work), text("/work"),
        text("--bind"), path(data), text("/data"),
        text("--chdir"), text("/work"),
    ];
    assert forall|socket: std::path::PathBuf|
        args_view(r@) == #[trigger] bwrap_base_args(*skill, *work, *data, socket).subrange(24, 35) by {
        assert(args_view(r@) =~= bwrap_base_args(*skill, *work, *data, socket).subrange(24, 35));
    }
    r
}

/// The fixed variables.
fn bwrap_var_args(socket: &std::path::PathBuf) -> (r: Vec<OsText>)
    ensures
        forall|skill: std::path::PathBuf, work: std::path::PathBuf, data: std::path::PathBuf|
            args_view(r@) == #[trigger] bwrap_base_args(skill, work, data, *socket).subrange(35, 49),
{
    let r = vec![
        text("--unsetenv"), text("HOME"),
        text("--setenv"), text("SKILL_DIR"), text("/skill"),
        text("--setenv"), text("WORK_DIR"), text("/work"),
        text("--setenv"), text("DATA_DIR"), text("/data"),
        text("--setenv"), text("SANDBOX_SOCKET"), path(socket),
    ];
    assert forall|skill: std::path::PathBuf, work: std::path::PathBuf, data: std::path::PathBuf|
        args_view(r@) == #[trigger] bwrap_base_args(skill, work, data, *socket).subrange(35, 49) by {
        assert(args_view(r@) =~= bwrap_base_args(skill, work, data, *socket).subrange(35, 49));
    }
    r
}

/// The arguments of `bwrap` before the declared variables.
fn bwrap_base(
    skill: &std::path::PathBuf,
    work: &std::path::PathBuf,
    data: &std::path::PathBuf,
    socket: &std::path::PathBuf,
) -> (r: Vec<OsText>)
    ensures
        args_view(r@) == bwrap_base_args(*skill, *work, *data, *socket),
{
    let ghost full = bwrap_base_args(*skill, *work, *data, *socket);
    let mut r = bwrap_system_args();
    let mounts = bwrap_mount_args(skill, work, data);
    let vars = bwrap_var_args(socket);
    assert(args_view(mounts@) == bwrap_base_args(*skill, *work, *data, *socket).subrange(24, 35));
    assert(args_view(vars@) == bwrap_base_args(*skill, *work, *data, *socket).subrange(35, 49));
    assert(bwrap_base_args(arbitrary(), arbitrary(), arbitrary(), arbitrary()).subrange(0, 24)
        =~= full.subrange(0, 24));
    append_args(&mut r, mounts);
    append_args(&mut r, vars);
    assert(full =~= full.subrange(0, 24) + full.subrange(24, 35) + full.subrange(35, 49));
    r
}

/// Whether a manifest grants no host at all: no network section, no allow
/// list, or an empty one.
pub open spec fn grants_no_host(m: Manifest) -> bool {
    manifest_lists(m.permissions).2.len() == 0
}

/// The plan that runs a skill under `bwrap`.
pub open spec fn bwrap_plan_spec(
    m: Manifest,
    skill: std::path::PathBuf,
    work: std::path::PathBuf,
    data: std::path::PathBuf,
    socket: std::path::PathBuf,
    host: Map<Seq<char>, Seq<char>>,
) -> LaunchPlanView {
    LaunchPlanView {
        program: t("bwrap"@),
        args: bwrap_base_args(skill, work, data, socket) + setenv_args(
            crate::manifest::opt_strs(m.permissions.env),
            host,
        ) + (if grants_no_host(m) {
            seq![t("--unshare-net"@)]
        } else {
            Seq::empty()
        }) + seq![t(m.runtime@), t("/skill/"@ + m.entry@)],
        current_dir: None,
        clear_env: true,
        env: seq![("PATH"@, t(system_path()))],
        new_process_group: false,
    }
}

/// The plan that runs a skill under `bwrap`: the skill directory read-only at
/// `/skill`, the work and data directories writable at `/work` and `/data`,
/// an environment cleared down to the system search path, the fixed
/// variables and the declared variables that are set in `host_env`, and no
/// network unless the manifest grants a host.
pub fn bwrap_plan(
    manifest: &Manifest,
    skill_path: &std::path::PathBuf,
    work_dir: &std::path::PathBuf,
    data_dir: &std::path::PathBuf,
    socket: &std::path::PathBuf,
    host_env: &StrMap<String>,
) -> (r: LaunchPlan)
    ensures
        r@ == bwrap_plan_spec(*manifest, *skill_path, *work_dir, *data_dir, *socket, host_env@),
{
    let mut args = bwrap_base(skill_path, work_dir, data_dir, socket);
    push_setenv_args(&mut args, &manifest.permissions.env, host_env);
    let ghost with_env = args_view(args@);
    let no_host = match &manifest.permissions.network {
        Some(n) => match &n.allow {
            Some(list) => list.len() == 0,
            None => true,
        },
        None => true,
    };
    proof {
        if manifest.permissions.network is Some {
            let n = manifest.permissions.network->0;
            if n.allow is Some {
                assert(crate::manifest::opt_strs(n.allow).len() == n.allow->0@.len());
            }
        }
    }
    assert(no_host == grants_no_host(*manifest));
    if no_host {
        push_text(&mut args, "--unshare-net");
    }
    let ghost with_net = args_view(args@);
    assert(with_net =~= with_env + (if grants_no_host(*manifest) {
        seq![t("--unshare-net"@)]
    } else {
        Seq::empty()
    }));
    push_text(&mut args, manifest.runtime.as_str());
    let entry = concat2("/skill/", manifest.entry.as_str());
    push_text(&mut args, entry.as_str());
    assert(args_view(args@) =~= with_net + seq![t(manifest.runtime@), t("/skill/"@ + manifest.entry@)]);
    let mut env: Vec<(String, OsText)> = Vec::new();
    push_var(&mut env, "PATH", text("/usr/bin:/bin:/usr/sbin:/sbin"));
    assert(env_view(env@) =~= seq![("PATH"@, t(system_path()))]);
    LaunchPlan { program: text("bwrap"), args, current_dir: None, clear_env: true, env, new_process_group: false }
}

/// The search path every sandboxed process gets.
pub open spec fn system_path() -> Seq<char> {
    "/usr/bin:/bin:/usr/sbin:/sbin"@
}

/// The plan that runs a skill directly, with the interposition library
/// preloaded where it is installed.
pub open spec fn preload_plan_spec(
    m: Manifest,
    skill: std::path::PathBuf,
    work: std::path::PathBuf,
    data: std::path::PathBuf,
    socket: std::path::PathBuf,
    host: Map<Seq<char>, Seq<char>>,
    library: Option<std::path::PathBuf>,
) -> LaunchPlanView {
    LaunchPlanView {
        program: t(m.runtime@),
        args: seq![pth(joined_path(skill, m.entry@))],
        current_dir: Some(work),
        clear_env: true,
        env: seq![
            ("SKILL_DIR"@, pth(skill)),
            ("WORK_DIR"@, pth(work)),
            ("DATA_DIR"@, pth(data)),
            ("SANDBOX_SOCKET"@, pth(socket)),
        ] + passed_vars(crate::manifest::opt_strs(m.permissions.env), host) + seq![
            ("PATH"@, t(system_path())),
        ] + match library {
            Some(lib) => seq![
                ("LD_PRELOAD"@, pth(lib)),
                ("SANDBOX_POLICY"@, t(
                    {
                        let (read, write, allow, exec) = manifest_lists(m.permissions);
                        policy_document(read, write, allow, exec)
                    },
                )),
            ],
            None => Seq::empty(),
        },
        new_process_group: true,
    }
}

/// The plan that runs a skill directly from its directory, in a clean
/// environment, in a process group of its own; `library` is the
/// interposition library where it is installed, which then gets the policy
/// document in `SANDBOX_POLICY`.
pub fn preload_plan(
    manifest: &Manifest,
    skill_path: &std::path::PathBuf,
    work_dir: &std::path::PathBuf,
    data_dir: &std::path::PathBuf,
    socket: &std::path::PathBuf,
    host_env: &StrMap<String>,
    library: Option<std::path::PathBuf>,
) -> (r: LaunchPlan)
    ensures
        r@ == preload_plan_spec(*manifest, *skill_path, *work_dir, *data_dir, *socket, host_env@, library),
{
    let mut args: Vec<OsText> = Vec::new();
    let entry = join_path(skill_path, manifest.entry.as_str());
    push_path(&mut args, &entry);
    let mut env: Vec<(String, OsText)> = Vec::new();
    push_var(&mut env, "SKILL_DIR", path(skill_path));
    push_var(&mut env, "WORK_DIR", path(work_dir));
    push_var(&mut env, "DATA_DIR", path(data_dir));
    push_var(&mut env, "SANDBOX_SOCKET", path(socket));
    let ghost fixed = env_view(env@);
    push_passed_vars(&mut env, &manifest.permissions.env, host_env);
    push_var(&mut env, "PATH", text("/usr/bin:/bin:/usr/sbin:/sbin"));
    let ghost before_lib = env_view(env@);
    match library {
        Some(lib) => {
            let doc = serialize_manifest_policy(manifest);
            push_var(&mut env, "LD_PRELOAD", OsText::Path(lib));
            push_var(&mut env, "SANDBOX_POLICY", OsText::Text(doc));
        },
        None => {},
    }
    assert(args_view(args@) =~= seq![pth(joined_path(*skill_path, manifest.entry@))]);
    assert(env_view(env@) =~= preload_plan_spec(
        *manifest,
        *skill_path,
        *work_dir,
        *data_dir,
        *socket,
        host_env@,
        library,
    ).env);
    LaunchPlan {
        program: text(manifest.runtime.as_str()),
        args,
        current_dir: Some(clone_path(work_dir)),
        clear_env: true,
        env,
        new_process_group: true,
    }
}

/// The variables of the macOS plan that start the interposition library:
/// the library, a flat namespace, and the file holding the policy document.
pub open spec fn dyld_vars(preload: Option<(std::path::PathBuf, std::path::PathBuf)>) -> Seq<(Seq<char>, OsTextView)> {
    match preload {
        Some((lib, file)) => seq![
            ("DYLD_INSERT_LIBRARIES"@, pth(lib)),
            ("DYLD_FORCE_FLAT_NAMESPACE"@, t("1"@)),
            ("SANDBOX_POLICY_FILE"@, pth(file)),
        ],
        None => Seq::empty(),
    }
}

/// The plan that runs a skill on macOS.
pub open spec fn macos_plan_spec(
    m: Manifest,
    skill: std::path::PathBuf,
    work: std::path::PathBuf,
    data: std::path::PathBuf,
    socket: Option<std::path::PathBuf>,
    host: Map<Seq<char>, Seq<char>>,
    preload: Option<(std::path::PathBuf, std::path::PathBuf)>,
) -> LaunchPlanView {
    LaunchPlanView {
        program: t(m.runtime@),
        args: seq![pth(joined_path(skill, m.entry@))],
        current_dir: Some(work),
        clear_env: true,
        env: seq![("SKILL_DIR"@, pth(skill)), ("WORK_DIR"@, pth(work)), ("DATA_DIR"@, pth(data))]
            + match socket {
            Some(s) => seq![("SANDBOX_SOCKET"@, pth(s))],
            None => Seq::empty(),
        } + passed_vars(crate::manifest::opt_strs(m.permissions.env), host) + seq![
            ("PATH"@, t(system_path())),
        ] + dyld_vars(preload),
        new_process_group: true,
    }
}

/// Appends the variables that start the interposition library on macOS.
fn push_dyld_vars(env: &mut Vec<(String, OsText)>, preload: Option<(std::path::PathBuf, std::path::PathBuf)>)
    ensures
        env_view(final(env)@) == env_view(old(env)@) + dyld_vars(preload),
{
    match preload {
        Some((lib, file)) => {
            push_var(env, "DYLD_INSERT_LIBRARIES", OsText::Path(lib));
            push_var(env, "DYLD_FORCE_FLAT_NAMESPACE", text("1"));
            push_var(env, "SANDBOX_POLICY_FILE", OsText::Path(file));
            assert(env_view(env@) =~= env_view(old(env)@) + dyld_vars(preload));
        },
        None => {
            assert(env_view(env@) =~= env_view(old(env)@) + dyld_vars(preload));
        },
    }
}

/// The plan that runs a skill on macOS: directly from its directory, in a
/// clean environment, in a process group of its own, with the broker socket
/// when there is a broker; `preload` is the interposition library and the
/// file that holds the policy document, where the library is installed.
pub fn macos_plan(
    manifest: &Manifest,
    skill_path: &std::path::PathBuf,
    work_dir: &std::path::PathBuf,
    data_dir: &std::path::PathBuf,
    socket: Option<std::path::PathBuf>,
    host_env: &StrMap<String>,
    preload: Option<(std::path::PathBuf, std::path::PathBuf)>,
) -> (r: LaunchPlan)
    ensures
        r@ == macos_plan_spec(*manifest, *skill_path, *work_dir, *data_dir, socket, host_env@, preload),
{
    let mut args: Vec<OsText> = Vec::new();
    let entry = join_path(skill_path, manifest.entry.as_str());
    push_path(&mut args, &entry);
    let mut env: Vec<(String, OsText)> = Vec::new();
    push_var(&mut env, "SKILL_DIR", path(skill_path));
    push_var(&mut env, "WORK_DIR", path(work_dir));
    push_var(&mut env, "DATA_DIR", path(data_dir));
    let ghost s0 = env_view(env@);
    match socket {
        Some(s) => {
            push_var(&mut env, "SANDBOX_SOCKET", OsText::Path(s));
        },
        None => {},
    }
    let ghost s1 = env_view(env@);
    assert(s1 =~= s0 + match socket {
        Some(s) => seq![("SANDBOX_SOCKET"@, pth(s))],
        None => Seq::<(Seq<char>, OsTextView)>::empty(),
    });
    push_passed_vars(&mut env, &manifest.permissions.env, host_env);
    push_var(&mut env, "PATH", text("/usr/bin:/bin:/usr/sbin:/sbin"));
    push_dyld_vars(&mut env, preload);
    assert(args_view(args@) =~= seq![pth(joined_path(*skill_path, manifest.entry@))]);
    assert(env_view(env@) =~= macos_plan_spec(
        *manifest,
        *skill_path,
        *work_dir,
        *data_dir,
        socket,
        host_env@,
        preload,
    ).env);
    LaunchPlan {
        program: text(manifest.runtime.as_str()),
        args,
        current_dir: Some(clone_path(work_dir)),
        clear_env: true,
        env,
        new_process_group: true,
    }
}

// ---------------------------------------------------------------------------
// The core sandbox
// ---------------------------------------------------------------------------

/// The platforms the core sandbox runs commands on.
#[derive(Debug, Clone, Copy, PartialEq, Eq, Structural)]
pub enum SandboxPlatform {
    Linux,
    MacOS,
}

/// The configured variables the policy lets through, in the order they were
/// set.
pub open spec fn allowed_vars(entries: Seq<(String, String)>, allowed: Seq<Seq<char>>) -> Seq<(Seq<char>, OsTextView)>
    decreases entries.len(),
{
    if entries.len() == 0 {
        Seq::empty()
    } else {
        let rest = allowed_vars(entries.drop_last(), allowed);
        let (k, v) = entries.last();
        if allowed.contains(k@) {
            rest.push((k@, t(v@)))
        } else {
            rest
        }
    }
}

/// The variables that start the interposition library.
pub open spec fn preload_vars(platform: SandboxPlatform, preload: Option<(std::path::PathBuf, std::path::PathBuf)>) -> Seq<
    (Seq<char>, OsTextView),
> {
    match platform {
        SandboxPlatform::MacOS => dyld_vars(preload),
        SandboxPlatform::Linux => match preload {
            Some((lib, file)) => seq![("LD_PRELOAD"@, pth(lib)), ("SANDBOX_POLICY_FILE"@, pth(file))],
            None => Seq::empty(),
        },
    }
}

/// The plan that runs a command in the core sandbox.
pub open spec fn sandbox_plan_spec(
    c: SandboxConfig,
    perms: PermissionsView,
    command: Seq<char>,
    platform: SandboxPlatform,
    preload: Option<(std::path::PathBuf, std::path::PathBuf)>,
) -> LaunchPlanView {
    LaunchPlanView {
        program: t("sh"@),
        args: seq![t("-c"@), t(command)],
        current_dir: Some(c.work_dir),
        clear_env: true,
        env: seq![("PATH"@, t(system_path()))] + allowed_vars(c.env_vars.spec_entries(), perms.env)
            + preload_vars(platform, preload) + match c.broker_socket {
            Some(s) => seq![("SANDBOX_SOCKET"@, pth(s))],
            None => Seq::empty(),
        },
        new_process_group: false,
    }
}

impl Sandbox {
    /// The policy document of the sandbox's permissions.
    pub fn serialize_policy(&self) -> (r: String)
        ensures
            r@ == policy_document(
                self.spec_permissions().read,
                self.spec_permissions().write,
                self.spec_permissions().allow,
                self.spec_permissions().exec_names,
            ),
    {
        proof {
            self.lemma_permissions_of_config();
        }
        let p = &self.config().permissions;
        policy_document_exec(&p.fs.read, &p.fs.write, &p.network.allow, &p.exec_names)
    }

    /// The plan that runs `command` with `sh -c` in the work directory, in
    /// a clean environment holding the search path, the configured variables
    /// the policy lets through, the interposition library (`preload`: the
    /// library and the file that holds the policy document, where the
    /// library is installed) and the broker socket when one is configured.
    pub fn launch_plan(
        &self,
        command: &str,
        platform: SandboxPlatform,
        preload: Option<(std::path::PathBuf, std::path::PathBuf)>,
    ) -> (r: LaunchPlan)
        ensures
            r@ == sandbox_plan_spec(*self.spec_config(), self.spec_permissions(), command@, platform, preload),
    {
        proof {
            self.lemma_permissions_of_config();
        }
        let config = self.config();
        let policy = self.policy();
        let mut env: Vec<(String, OsText)> = Vec::new();
        push_var(&mut env, "PATH", text("/usr/bin:/bin:/usr/sbin:/sbin"));
        let ghost start = env_view(env@);
        let entries = config.env_vars.entries();
        let mut i: usize = 0;
        assert(entries@.subrange(0, 0) =~= Seq::<(String, String)>::empty());
        assert(start + Seq::<(Seq<char>, OsTextView)>::empty() =~= start);
        while i < entries.len()
            invariant
                i <= entries@.len(),
                policy@ == self.spec_permissions(),
                env_view(env@) == start + allowed_vars(entries@.subrange(0, i as int), policy@.env),
            decreases entries@.len() - i,
        {
            let ghost prefix = entries@.subrange(0, i as int);
            let ghost next = entries@.subrange(0, i + 1);
            assert(next.drop_last() == prefix);
            let (k, v) = &entries[i];
            if policy.check_env(k.as_str()) {
                push_var(&mut env, k.as_str(), OsText::Text(string_of(v.as_str())));
                assert(start + allowed_vars(next, policy@.env) =~= (start + allowed_vars(
                    prefix,
                    policy@.env,
                )).push((k@, t(v@))));
            }
            i = i + 1;
        }
        assert(entries@.subrange(0, entries@.len() as int) == entries@);
        let ghost with_vars = env_view(env@);
        match preload {
            Some((lib, file)) => match platform {
                SandboxPlatform::Linux => {
                    push_var(&mut env, "LD_PRELOAD", OsText::Path(lib));
                    push_var(&mut env, "SANDBOX_POLICY_FILE", OsText::Path(file));
                },
                SandboxPlatform::MacOS => {
                    push_dyld_vars(&mut env, Some((lib, file)));
                },
            },
            None => {},
        }
        assert(env_view(env@) =~= with_vars + preload_vars(platform, preload));
        let ghost with_preload = env_view(env@);
        match &config.broker_socket {
            Some(s) => {
                push_var(&mut env, "SANDBOX_SOCKET", path(s));
            },
            None => {},
        }
        assert(env_view(env@) =~= with_preload + match config.broker_socket {
            Some(s) => seq![("SANDBOX_SOCKET"@, pth(s))],
            None => Seq::<(Seq<char>, OsTextView)>::empty(),
        });
        let mut args: Vec<OsText> = Vec::new();
        push_text(&mut args, "-c");
        push_text(&mut args, command);
        assert(args_view(args@) =~= seq![t("-c"@), t(command@)]);
        let ghost spec = sandbox_plan_spec(*self.spec_config(), self.spec_permissions(), command@, platform, preload);
        assert(entries@ == self.spec_config().env_vars.spec_entries());
        assert(env_view(env@) == spec.env);
        let r = LaunchPlan {
            program: text("sh"),
            args,
            current_dir: Some(clone_path(&config.work_dir)),
            clear_env: true,
            env,
            new_process_group: false,
        };
        assert(r@.current_dir == spec.current_dir);
        assert(r@.program == spec.program);
        r
    }
}

// ---------------------------------------------------------------------------
// Runtimes of the command-line program
// ---------------------------------------------------------------------------

/// How a skill runs on Linux: its manifest, its directory, the work and data
/// directories prepared for it, and the isolation in use.
#[derive(Debug)]
pub struct LinuxRuntime {
    pub manifest: Manifest,
    pub skill_path: std::path::PathBuf,
    pub work_dir: std::path::PathBuf,
    pub data_dir: std::path::PathBuf,
    pub mode: crate::cli::LinuxIsolationMode,
}

impl LinuxRuntime {
    /// A runtime over prepared directories.
    pub fn new(
        manifest: Manifest,
        skill_path: std::path::PathBuf,
        work_dir: std::path::PathBuf,
        data_dir: std::path::PathBuf,
        mode: crate::cli::LinuxIsolationMode,
    ) -> (r: Self)
        ensures
            r.manifest == manifest,
            r.skill_path == skill_path,
            r.work_dir == work_dir,
            r.data_dir == data_dir,
            r.mode == mode,
    {
        LinuxRuntime { manifest, skill_path, work_dir, data_dir, mode }
    }

    /// The policy document of the manifest's permissions.
    pub fn serialize_policy(&self) -> (r: String)
        ensures
            r@ == ({
                let (read, write, allow, exec) = manifest_lists(self.manifest.permissions);
                policy_document(read, write, allow, exec)
            }),
    {
        serialize_manifest_policy(&self.manifest)
    }

    /// The plan that runs the skill: under `bwrap`, or directly with the
    /// interposition library (`library`, where it is installed).
    pub fn plan(&self, socket: &std::path::PathBuf, host_env: &StrMap<String>, library: Option<std::path::PathBuf>) -> (r:
        LaunchPlan)
        ensures
            self.mode == crate::cli::LinuxIsolationMode::Bwrap ==> r@ == bwrap_plan_spec(
                self.manifest,
                self.skill_path,
                self.work_dir,
                self.data_dir,
                *socket,
                host_env@,
            ),
            self.mode == crate::cli::LinuxIsolationMode::Preload ==> r@ == preload_plan_spec(
                self.manifest,
                self.skill_path,
                self.work_dir,
                self.data_dir,
                *socket,
                host_env@,
                library,
            ),
    {
        match self.mode {
            crate::cli::LinuxIsolationMode::Bwrap => bwrap_plan(
                &self.manifest,
                &self.skill_path,
                &self.work_dir,
                &self.data_dir,
                socket,
                host_env,
            ),
            crate::cli::LinuxIsolationMode::Preload => preload_plan(
                &self.manifest,
                &self.skill_path,
                &self.work_dir,
                &self.data_dir,
                socket,
                host_env,
                library,
            ),
        }
    }
}

/// How a skill runs on macOS: its manifest, its directory, and the work and
/// data directories prepared for it.
#[derive(Debug)]
pub struct MacOSRuntime {
    pub manifest: Manifest,
    pub skill_path: std::path::PathBuf,
    pub work_dir: std::path::PathBuf,
    pub data_dir: std::path::PathBuf,
}

impl MacOSRuntime {
    /// A runtime over prepared directories.
    pub fn new(
        manifest: Manifest,
        skill_path: std::path::PathBuf,
        work_dir: std::path::PathBuf,
        data_dir: std::path::PathBuf,
    ) -> (r: Self)
        ensures
            r.manifest == manifest,
            r.skill_path == skill_path,
            r.work_dir == work_dir,
            r.data_dir == data_dir,
    {
        MacOSRuntime { manifest, skill_path, work_dir, data_dir }
    }

    /// The policy document of a manifest's permissions.
    pub fn serialize_policy(manifest: &Manifest) -> (r: String)
        ensures
            r@ == ({
                let (read, write, allow, exec) = manifest_lists(manifest.permissions);
                policy_document(read, write, allow, exec)
            }),
    {
        serialize_manifest_policy(manifest)
    }

    /// The plan that runs the skill, with the broker socket when there is a
    /// broker and the interposition library where it is installed.
    pub fn plan(
        &self,
        socket: Option<std::path::PathBuf>,
        host_env: &StrMap<String>,
        preload: Option<(std::path::PathBuf, std::path::PathBuf)>,
    ) -> (r: LaunchPlan)
        ensures
            r@ == macos_plan_spec(
                self.manifest,
                self.skill_path,
                self.work_dir,
                self.data_dir,
                socket,
                host_env@,
                preload,
            ),
    {
        macos_plan(&self.manifest, &self.skill_path, &self.work_dir, &self.data_dir, socket, host_env, preload)
    }
}

} // verus!
