//! Paths of `std::path`, carried through the library unread, and the few
//! computations on them the library makes. Where the library names files
//! and directories it does so here.

use vstd::prelude::*;
use crate::policy::concat2;
use crate::text::{decimal, decimal_exec, decimal_exec_wide, string_from_chars};

verus! {

/// The path `base` with the relative path `rel` appended, as
/// `Path::join` gives it.
pub uninterp spec fn joined_path(base: std::path::PathBuf, rel: Seq<char>) -> std::path::PathBuf;

/// The path `PathBuf::from` makes of a text.
pub uninterp spec fn path_of_text(s: Seq<char>) -> std::path::PathBuf;

/// `Path::join`.
#[verifier::external_body]
pub(crate) fn join_path(base: &std::path::PathBuf, rel: &str) -> (r: std::path::PathBuf)
    ensures
        r == joined_path(*base, rel@),
{
    base.join(rel)
}

/// `PathBuf::from` a text.
#[verifier::external_body]
pub(crate) fn path_of(s: &str) -> (r: std::path::PathBuf)
    ensures
        r == path_of_text(s@),
{
    std::path::PathBuf::from(s)
}

/// `PathBuf::clone`: a copy of the same path.
#[verifier::external_body]
pub(crate) fn clone_path(p: &std::path::PathBuf) -> (r: std::path::PathBuf)
    ensures
        r == *p,
{
    p.clone()
}

/// `prefix`, the decimal text of `n`, then `suffix`.
pub open spec fn numbered(prefix: Seq<char>, n: nat, suffix: Seq<char>) -> Seq<char> {
    prefix + decimal(n) + suffix
}

fn numbered_exec(prefix: &str, n: u32, suffix: &str) -> (r: String)
    ensures
        r@ == numbered(prefix@, n as nat, suffix@),
{
    let digits = string_from_chars(decimal_exec(n as u64).as_slice());
    let mut r = concat2(prefix, digits.as_str());
    r.append(suffix);
    r
}

/// The name of the work directory of process `pid`.
pub fn work_dir_name(pid: u32) -> (r: String)
    ensures
        r@ == numbered("corral-work-"@, pid as nat, ""@),
{
    numbered_exec("corral-work-", pid, "")
}

/// The work directory a core sandbox gets when none is configured:
/// `corral-<pid>` in the temporary directory.
pub fn default_work_dir(temp_dir: &std::path::PathBuf, pid: u32) -> (r: std::path::PathBuf)
    ensures
        r == joined_path(*temp_dir, numbered("corral-"@, pid as nat, ""@)),
{
    let name = numbered_exec("corral-", pid, "");
    join_path(temp_dir, name.as_str())
}

/// The name of the policy file of process `pid`.
pub fn policy_file_name(pid: u32) -> (r: String)
    ensures
        r@ == numbered("corral-policy-"@, pid as nat, ".json"@),
{
    numbered_exec("corral-policy-", pid, ".json")
}

/// The name of the broker socket of process `pid`.
pub fn socket_file_name(pid: u32) -> (r: String)
    ensures
        r@ == numbered("corral-broker-"@, pid as nat, ".sock"@),
{
    numbered_exec("corral-broker-", pid, ".sock")
}

/// The name of the audit file of a day, given as `YYYYMMDD`.
pub fn audit_file_name(day: &str) -> (r: String)
    ensures
        r@ == "audit-"@ + day@ + ".jsonl"@,
{
    let mut r = concat2("audit-", day);
    r.append(".jsonl");
    r
}

/// The user's data directory, or `/tmp` where there is none.
pub open spec fn data_root(data_dir: Option<std::path::PathBuf>) -> std::path::PathBuf {
    match data_dir {
        Some(d) => d,
        None => path_of_text("/tmp"@),
    }
}

fn data_root_exec(data_dir: Option<std::path::PathBuf>) -> (r: std::path::PathBuf)
    ensures
        r == data_root(data_dir),
{
    match data_dir {
        Some(d) => d,
        None => path_of("/tmp"),
    }
}

/// The directory that keeps a skill's data between runs:
/// `<data>/corral/skills/<name>`.
pub open spec fn skill_data_dir_spec(data_dir: Option<std::path::PathBuf>, name: Seq<char>) -> std::path::PathBuf {
    joined_path(joined_path(joined_path(data_root(data_dir), "corral"@), "skills"@), name)
}

/// The directory that keeps a skill's data between runs.
pub fn skill_data_dir(data_dir: Option<std::path::PathBuf>, name: &str) -> (r: std::path::PathBuf)
    ensures
        r == skill_data_dir_spec(data_dir, name@),
{
    let root = data_root_exec(data_dir);
    let corral = join_path(&root, "corral");
    let skills = join_path(&corral, "skills");
    join_path(&skills, name)
}

/// The directory of the audit log: `<data>/corral/audit`.
pub open spec fn audit_log_dir_spec(data_dir: Option<std::path::PathBuf>) -> std::path::PathBuf {
    joined_path(joined_path(data_root(data_dir), "corral"@), "audit"@)
}

/// The directory of the audit log.
pub fn get_audit_log_dir(data_dir: Option<std::path::PathBuf>) -> (r: std::path::PathBuf)
    ensures
        r == audit_log_dir_spec(data_dir),
{
    let root = data_root_exec(data_dir);
    let corral = join_path(&root, "corral");
    join_path(&corral, "audit")
}

/// The broker socket of process `pid`, in the runtime directory, else the
/// temporary directory named by the environment, else `/tmp`.
pub open spec fn socket_path_spec(runtime_dir: Option<Seq<char>>, tmp_dir: Option<Seq<char>>, pid: nat) -> std::path::PathBuf {
    let dir = match runtime_dir {
        Some(d) => d,
        None => match tmp_dir {
            Some(t) => t,
            None => "/tmp"@,
        },
    };
    joined_path(path_of_text(dir), numbered("corral-broker-"@, pid, ".sock"@))
}

/// The broker socket of process `pid`.
pub fn create_socket_path(runtime_dir: Option<String>, tmp_dir: Option<String>, pid: u32) -> (r: std::path::PathBuf)
    ensures
        r == socket_path_spec(
            match runtime_dir {
                Some(d) => Some(d@),
                None => None,
            },
            match tmp_dir {
                Some(t) => Some(t@),
                None => None,
            },
            pid as nat,
        ),
{
    let dir = match runtime_dir {
        Some(d) => path_of(d.as_str()),
        None => match tmp_dir {
            Some(t) => path_of(t.as_str()),
            None => path_of("/tmp"),
        },
    };
    let name = socket_file_name(pid);
    join_path(&dir, name.as_str())
}

/// The broker socket of the core sandbox for process `pid` at the moment
/// `nanos` (nanoseconds since the epoch), in the runtime directory, else the
/// temporary directory named by the environment, else `/tmp`.
pub open spec fn core_socket_path_spec(runtime_dir: Option<Seq<char>>, tmp_dir: Option<Seq<char>>, pid: nat, nanos: nat) -> std::path::PathBuf {
    let dir = match runtime_dir {
        Some(d) => d,
        None => match tmp_dir {
            Some(t) => t,
            None => "/tmp"@,
        },
    };
    joined_path(path_of_text(dir), "corral-broker-"@ + decimal(pid) + "-"@ + decimal(nanos) + ".sock"@)
}

/// The broker socket of the core sandbox.
pub fn create_core_socket_path(runtime_dir: Option<String>, tmp_dir: Option<String>, pid: u32, nanos: u128) -> (r:
    std::path::PathBuf)
    ensures
        r == core_socket_path_spec(
            match runtime_dir {
                Some(d) => Some(d@),
                None => None,
            },
            match tmp_dir {
                Some(t) => Some(t@),
                None => None,
            },
            pid as nat,
            nanos as nat,
        ),
{
    let dir = match runtime_dir {
        Some(d) => path_of(d.as_str()),
        None => match tmp_dir {
            Some(t) => path_of(t.as_str()),
            None => path_of("/tmp"),
        },
    };
    let mut name = numbered_exec("corral-broker-", pid, "-");
    name.append(string_from_chars(decimal_exec_wide(nanos).as_slice()).as_str());
    name.append(".sock");
    join_path(&dir, name.as_str())
}

} // verus!
