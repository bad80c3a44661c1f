//! The `fs` namespace: reading, writing, listing, inspecting and deleting
//! files the permission set allows.

use vstd::prelude::*;
use crate::handlers::{HandlerError, outcome, missing_message, unknown_message, param_text, require_param, is_text, unknown_method};
use crate::handlers::{read_refusal, write_refusal};
use crate::permissions::PermissionsView;
use crate::policy::PolicyEngine;

verus! {

/// A filesystem operation the broker is to perform.
#[derive(Debug)]
pub enum FsOp {
    Read(String),
    Write { path: String, content: String },
    List(String),
    Stat(String),
    Delete(String),
}

/// What a filesystem operation states.
pub enum FsOpView {
    Read(Seq<char>),
    Write(Seq<char>, Seq<char>),
    List(Seq<char>),
    Stat(Seq<char>),
    Delete(Seq<char>),
}

/// What a filesystem operation states.
pub open spec fn fs_op_view(op: FsOp) -> FsOpView {
    match op {
        FsOp::Read(p) => FsOpView::Read(p@),
        FsOp::Write { path, content } => FsOpView::Write(path@, content@),
        FsOp::List(p) => FsOpView::List(p@),
        FsOp::Stat(p) => FsOpView::Stat(p@),
        FsOp::Delete(p) => FsOpView::Delete(p@),
    }
}

/// What `fs.<method>` with `params` comes to under the permission set.
pub open spec fn fs_outcome(method: Seq<char>, params: serde_json::Value, p: PermissionsView) -> Result<
    FsOpView,
    Seq<char>,
> {
    if method == "read"@ || method == "list"@ || method == "stat"@ {
        match param_text(params, "path"@) {
            None => Err(missing_message("path"@)),
            Some(path) => match read_refusal(p, path) {
                Some(m) => Err(m),
                None => Ok(
                    if method == "read"@ {
                        FsOpView::Read(path)
                    } else if method == "list"@ {
                        FsOpView::List(path)
                    } else {
                        FsOpView::Stat(path)
                    },
                ),
            },
        }
    } else if method == "write"@ {
        match param_text(params, "path"@) {
            None => Err(missing_message("path"@)),
            Some(path) => match param_text(params, "content"@) {
                None => Err(missing_message("content"@)),
                Some(content) => match write_refusal(p, path) {
                    Some(m) => Err(m),
                    None => Ok(FsOpView::Write(path, content)),
                },
            },
        }
    } else if method == "delete"@ {
        match param_text(params, "path"@) {
            None => Err(missing_message("path"@)),
            Some(path) => match write_refusal(p, path) {
                Some(m) => Err(m),
                None => Ok(FsOpView::Delete(path)),
            },
        }
    } else {
        Err(unknown_message("fs"@, method))
    }
}

/// Decides an `fs` request.
pub fn handle(method: &str, params: &serde_json::Value, policy: &PolicyEngine) -> (r: Result<
    FsOp,
    HandlerError,
>)
    ensures
        outcome(r, |op: FsOp| fs_op_view(op)) == fs_outcome(method@, *params, policy@),
{
    proof {
        reveal_strlit("read");
        reveal_strlit("list");
        reveal_strlit("stat");
        reveal_strlit("write");
        reveal_strlit("delete");
        reveal_strlit("path");
        reveal_strlit("content");
        reveal_strlit("fs");
    }
    let is_read = is_text(method, "read");
    let is_list = is_text(method, "list");
    let is_stat = is_text(method, "stat");
    if is_read || is_list || is_stat {
        let path = match require_param(params, "path") {
            Ok(p) => p,
            Err(e) => return Err(e),
        };
        match policy.check_file_read(path.as_str()) {
            Ok(()) => {},
            Err(e) => return Err(HandlerError::Denied(e)),
        }
        if is_read {
            Ok(FsOp::Read(path))
        } else if is_list {
            Ok(FsOp::List(path))
        } else {
            Ok(FsOp::Stat(path))
        }
    } else if is_text(method, "write") {
        let path = match require_param(params, "path") {
            Ok(p) => p,
            Err(e) => return Err(e),
        };
        let content = match require_param(params, "content") {
            Ok(c) => c,
            Err(e) => return Err(e),
        };
        match policy.check_file_write(path.as_str()) {
            Ok(()) => Ok(FsOp::Write { path, content }),
            Err(e) => Err(HandlerError::Denied(e)),
        }
    } else if is_text(method, "delete") {
        let path = match require_param(params, "path") {
            Ok(p) => p,
            Err(e) => return Err(e),
        };
        match policy.check_file_write(path.as_str()) {
            Ok(()) => Ok(FsOp::Delete(path)),
            Err(e) => Err(HandlerError::Denied(e)),
        }
    } else {
        Err(unknown_method("fs", method))
    }
}

} // verus!
