//! The `exec` namespace: running a declared command.

use vstd::prelude::*;
use crate::handlers::{HandlerError, outcome, missing_message, unknown_message, param_text, require_param, read_param, is_text, unknown_method};
use crate::handlers::{manifest_exec_refusal, param_texts, read_param_texts};
use crate::manifest::Permissions as ManifestPermissions;
use crate::manifest_policy::PolicyEngine as ManifestPolicyEngine;
use crate::permissions::strs;

verus! {

/// A command the broker is to run.
#[derive(Debug)]
pub struct ExecPlan {
    pub command: String,
    pub args: Vec<String>,
    pub cwd: Option<String>,
}

/// What an exec plan states.
pub open spec fn exec_plan_view(p: ExecPlan) -> (Seq<char>, Seq<Seq<char>>, Option<Seq<char>>) {
    (
        p.command@,
        strs(p.args@),
        match p.cwd {
            Some(c) => Some(c@),
            None => None,
        },
    )
}

/// What `exec.<method>` with `params` comes to under the manifest.
pub open spec fn exec_outcome(method: Seq<char>, params: serde_json::Value, p: ManifestPermissions) -> Result<
    (Seq<char>, Seq<Seq<char>>, Option<Seq<char>>),
    Seq<char>,
> {
    if method != "run"@ {
        Err(unknown_message("exec"@, method))
    } else {
        match param_text(params, "command"@) {
            None => Err(missing_message("command"@)),
            Some(command) => match manifest_exec_refusal(p, command) {
                Some(m) => Err(m),
                None => Ok((command, param_texts(params, "args"@), param_text(params, "cwd"@))),
            },
        }
    }
}

/// Decides an `exec` request: the command, its arguments and its working
/// directory.
pub fn handle(method: &str, params: &serde_json::Value, policy: &ManifestPolicyEngine) -> (r: Result<
    ExecPlan,
    HandlerError,
>)
    ensures
        outcome(r, |p: ExecPlan| exec_plan_view(p)) == exec_outcome(
            method@,
            *params,
            policy.spec_manifest().permissions,
        ),
{
    proof {
        reveal_strlit("run");
        reveal_strlit("command");
        reveal_strlit("exec");
        reveal_strlit("args");
        reveal_strlit("cwd");
    }
    if !is_text(method, "run") {
        return Err(unknown_method("exec", method));
    }
    let command = match require_param(params, "command") {
        Ok(c) => c,
        Err(e) => return Err(e),
    };
    match policy.check_exec(command.as_str()) {
        Ok(()) => {},
        Err(e) => return Err(HandlerError::Refused(e)),
    }
    let args = read_param_texts(params, "args");
    let cwd = read_param(params, "cwd");
    Ok(ExecPlan { command, args, cwd })
}

} // verus!
