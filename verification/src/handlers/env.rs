//! The `env` namespace: reading a declared environment variable.

use vstd::prelude::*;
use crate::handlers::{HandlerError, outcome, missing_message, unknown_message, param_text, require_param, is_text, unknown_method};
use crate::handlers::manifest_env_refusal;
use crate::manifest::Permissions as ManifestPermissions;
use crate::manifest_policy::PolicyEngine as ManifestPolicyEngine;

verus! {

/// What `env.<method>` with `params` comes to under the manifest: the name of
/// the variable to read, or the message of the error.
pub open spec fn env_outcome(method: Seq<char>, params: serde_json::Value, p: ManifestPermissions) -> Result<
    Seq<char>,
    Seq<char>,
> {
    if method != "get"@ {
        Err(unknown_message("env"@, method))
    } else {
        match param_text(params, "name"@) {
            None => Err(missing_message("name"@)),
            Some(name) => match manifest_env_refusal(p, name) {
                Some(m) => Err(m),
                None => Ok(name),
            },
        }
    }
}

/// Decides an `env` request: the name of the variable whose value is to be
/// handed back.
pub fn handle(method: &str, params: &serde_json::Value, policy: &ManifestPolicyEngine) -> (r: Result<
    String,
    HandlerError,
>)
    ensures
        outcome(r, |s: String| s@) == env_outcome(method@, *params, policy.spec_manifest().permissions),
{
    proof {
        reveal_strlit("get");
        reveal_strlit("name");
        reveal_strlit("env");
    }
    if !is_text(method, "get") {
        return Err(unknown_method("env", method));
    }
    let name = match require_param(params, "name") {
        Ok(n) => n,
        Err(e) => return Err(e),
    };
    match policy.check_env(name.as_str()) {
        Ok(()) => Ok(name),
        Err(e) => Err(HandlerError::Refused(e)),
    }
}

} // verus!
