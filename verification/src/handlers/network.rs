//! The `network` namespace: HTTP requests and downloads to hosts the
//! permission set allows.

use vstd::prelude::*;
use crate::handlers::{HandlerError, outcome, missing_message, unknown_message, param_text, require_param, read_param, is_text, unknown_method};
use crate::policy::string_of;
use crate::handlers::{network_refusal, write_refusal, param_pairs, pairs_view, read_param_pairs};
use crate::json::{json_member, json_text, member, text_of};
use crate::permissions::PermissionsView;
use crate::policy::PolicyEngine;

verus! {

/// What the `url` crate makes of `text`: the host and the port (the known
/// default of the scheme where none is written), or the message of the parse
/// error.
pub uninterp spec fn url_parts(text: Seq<char>) -> Result<(Option<Seq<char>>, Option<u16>), Seq<char>>;

/// `text` in upper case, as `str::to_uppercase` gives it.
pub uninterp spec fn uppercase(text: Seq<char>) -> Seq<char>;

/// The contents of an optional string.
pub open spec fn opt_view(o: Option<String>) -> Option<Seq<char>> {
    match o {
        Some(s) => Some(s@),
        None => None,
    }
}

/// Parses a URL with `url::Url::parse` and reads `host_str` and
/// `port_or_known_default`; an error is handed back as its message.
#[verifier::external_body]
fn parse_url(text: &str) -> (r: Result<(Option<String>, Option<u16>), String>)
    ensures
        url_parts(text@) == match r {
            Ok((h, p)) => Ok((opt_view(h), p)),
            Err(m) => Err(m@),
        },
{
    match url::Url::parse(text) {
        Ok(u) => Ok((u.host_str().map(|h| h.to_string()), u.port_or_known_default())),
        Err(e) => Err(e.to_string()),
    }
}

/// `str::to_uppercase`.
#[verifier::external_body]
fn to_uppercase(text: &str) -> (r: String)
    ensures
        r@ == uppercase(text@),
{
    text.to_uppercase()
}

/// The HTTP methods the broker sends.
#[derive(Debug, Clone, Copy, PartialEq, Eq, Structural)]
pub enum HttpVerb {
    Get,
    Post,
    Put,
    Delete,
    Patch,
}

/// The method an upper-case name stands for.
pub open spec fn verb_named(name: Seq<char>) -> Option<HttpVerb> {
    if name == "GET"@ {
        Some(HttpVerb::Get)
    } else if name == "POST"@ {
        Some(HttpVerb::Post)
    } else if name == "PUT"@ {
        Some(HttpVerb::Put)
    } else if name == "DELETE"@ {
        Some(HttpVerb::Delete)
    } else if name == "PATCH"@ {
        Some(HttpVerb::Patch)
    } else {
        None
    }
}

fn verb_named_exec(name: &str) -> (r: Option<HttpVerb>)
    ensures
        r == verb_named(name@),
{
    if is_text(name, "GET") {
        Some(HttpVerb::Get)
    } else if is_text(name, "POST") {
        Some(HttpVerb::Post)
    } else if is_text(name, "PUT") {
        Some(HttpVerb::Put)
    } else if is_text(name, "DELETE") {
        Some(HttpVerb::Delete)
    } else if is_text(name, "PATCH") {
        Some(HttpVerb::Patch)
    } else {
        None
    }
}

/// The body of an HTTP request: a string parameter is sent as it is, any
/// other JSON as JSON.
#[derive(Debug)]
pub enum HttpBody {
    Text(String),
    Json(serde_json::Value),
}

/// What a body states.
pub enum HttpBodyView {
    Text(Seq<char>),
    Json(serde_json::Value),
}

/// The body a `body` parameter gives.
pub open spec fn body_of(body: Option<serde_json::Value>) -> Option<HttpBodyView> {
    match body {
        None => None,
        Some(v) => match json_text(v) {
            Some(t) => Some(HttpBodyView::Text(t)),
            None => Some(HttpBodyView::Json(v)),
        },
    }
}

/// What a body states.
pub open spec fn http_body_view(b: Option<HttpBody>) -> Option<HttpBodyView> {
    match b {
        None => None,
        Some(HttpBody::Text(t)) => Some(HttpBodyView::Text(t@)),
        Some(HttpBody::Json(v)) => Some(HttpBodyView::Json(v)),
    }
}

/// A network operation the broker is to perform.
#[derive(Debug)]
pub enum NetOp {
    Http { verb: HttpVerb, url: String, headers: Vec<(String, String)>, body: Option<HttpBody> },
    Download { url: String, save_to: String },
}

/// What a network operation states.
pub enum NetOpView {
    Http(HttpVerb, Seq<char>, Seq<(Seq<char>, Seq<char>)>, Option<HttpBodyView>),
    Download(Seq<char>, Seq<char>),
}

/// What a network operation states.
pub open spec fn net_op_view(op: NetOp) -> NetOpView {
    match op {
        NetOp::Http { verb, url, headers, body } => NetOpView::Http(
            verb,
            url@,
            pairs_view(headers@),
            http_body_view(body),
        ),
        NetOp::Download { url, save_to } => NetOpView::Download(url@, save_to@),
    }
}

/// Where a URL leads, or the message of why it leads nowhere.
pub open spec fn url_target(url: Seq<char>) -> Result<(Seq<char>, u16), Seq<char>> {
    match url_parts(url) {
        Err(m) => Err(m),
        Ok((None, _)) => Err("Invalid URL: no host"@),
        Ok((Some(_), None)) => Err("Invalid URL: no port"@),
        Ok((Some(h), Some(p))) => Ok((h, p)),
    }
}

/// What `network.<method>` with `params` comes to under the permission set.
pub open spec fn network_outcome(method: Seq<char>, params: serde_json::Value, p: PermissionsView) -> Result<
    NetOpView,
    Seq<char>,
> {
    if method == "http"@ {
        let verb = match param_text(params, "method"@) {
            Some(m) => m,
            None => "GET"@,
        };
        match param_text(params, "url"@) {
            None => Err(missing_message("url"@)),
            Some(url) => match url_target(url) {
                Err(m) => Err(m),
                Ok((host, port)) => match network_refusal(p, host, port) {
                    Some(m) => Err(m),
                    None => match verb_named(uppercase(verb)) {
                        None => Err("Unsupported HTTP method: "@ + verb),
                        Some(v) => Ok(
                            NetOpView::Http(
                                v,
                                url,
                                param_pairs(params, "headers"@),
                                body_of(json_member(params, "body"@)),
                            ),
                        ),
                    },
                },
            },
        }
    } else if method == "download"@ {
        match param_text(params, "url"@) {
            None => Err(missing_message("url"@)),
            Some(url) => match param_text(params, "saveTo"@) {
                None => Err(missing_message("saveTo"@)),
                Some(save_to) => match url_target(url) {
                    Err(m) => Err(m),
                    Ok((host, port)) => match network_refusal(p, host, port) {
                        Some(m) => Err(m),
                        None => match write_refusal(p, save_to) {
                            Some(m) => Err(m),
                            None => Ok(NetOpView::Download(url, save_to)),
                        },
                    },
                },
            },
        }
    } else {
        Err(unknown_message("network"@, method))
    }
}

/// The host and port a URL leads to, checked against the permission set.
fn checked_target(url: &str, policy: &PolicyEngine) -> (r: Result<(), HandlerError>)
    ensures
        outcome(r, |u: ()| u) == match url_target(url@) {
            Err(m) => Err(m),
            Ok((host, port)) => match network_refusal(policy@, host, port) {
                Some(m) => Err(m),
                None => Ok(()),
            },
        },
{
    let (host, port) = match parse_url(url) {
        Err(m) => return Err(HandlerError::InvalidUrl(m)),
        Ok((None, _)) => return Err(HandlerError::NoHost),
        Ok((Some(_), None)) => return Err(HandlerError::NoPort),
        Ok((Some(h), Some(p))) => (h, p),
    };
    match policy.check_network_result(host.as_str(), port) {
        Ok(()) => Ok(()),
        Err(e) => Err(HandlerError::Denied(e)),
    }
}

/// Decides a `network` request.
pub fn handle(method: &str, params: &serde_json::Value, policy: &PolicyEngine) -> (r: Result<
    NetOp,
    HandlerError,
>)
    ensures
        outcome(r, |op: NetOp| net_op_view(op)) == network_outcome(method@, *params, policy@),
{
    proof {
        reveal_strlit("http");
        reveal_strlit("download");
        reveal_strlit("method");
        reveal_strlit("url");
        reveal_strlit("saveTo");
        reveal_strlit("headers");
        reveal_strlit("body");
        reveal_strlit("network");
        reveal_strlit("GET");
    }
    if is_text(method, "http") {
        let verb_text = match read_param(params, "method") {
            Some(m) => m,
            None => string_of("GET"),
        };
        let url = match require_param(params, "url") {
            Ok(u) => u,
            Err(e) => return Err(e),
        };
        match checked_target(url.as_str(), policy) {
            Ok(()) => {},
            Err(e) => return Err(e),
        }
        let upper = to_uppercase(verb_text.as_str());
        let verb = match verb_named_exec(upper.as_str()) {
            Some(v) => v,
            None => return Err(HandlerError::UnsupportedHttpMethod(verb_text)),
        };
        let headers = read_param_pairs(params, "headers");
        let body = match member(params, "body") {
            None => None,
            Some(v) => match text_of(&v) {
                Some(t) => Some(HttpBody::Text(t)),
                None => Some(HttpBody::Json(v)),
            },
        };
        Ok(NetOp::Http { verb, url, headers, body })
    } else if is_text(method, "download") {
        let url = match require_param(params, "url") {
            Ok(u) => u,
            Err(e) => return Err(e),
        };
        let save_to = match require_param(params, "saveTo") {
            Ok(s) => s,
            Err(e) => return Err(e),
        };
        match checked_target(url.as_str(), policy) {
            Ok(()) => {},
            Err(e) => return Err(e),
        }
        match policy.check_file_write(save_to.as_str()) {
            Ok(()) => Ok(NetOp::Download { url, save_to }),
            Err(e) => Err(HandlerError::Denied(e)),
        }
    } else {
        Err(unknown_method("network", method))
    }
}

} // verus!
