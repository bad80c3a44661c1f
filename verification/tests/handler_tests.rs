use corral::handlers::env::handle as env_request;
use corral::handlers::exec::handle as exec_request;
use corral::handlers::fs::{handle as fs_request, FsOp};
use corral::handlers::network::{handle as network_request, HttpBody, HttpVerb, NetOp};
use corral::handlers::services::{
    check_add_scope, check_list_scope, handle_browser, handle_calendar, handle_clipboard, handle_notifications,
    handle_reminders as reminders_route, serve_reminders, RemindersCall, RemindersOp,
};
use corral::handlers::HandlerError;
use corral::jsonrpc::ErrorCode;
use corral::manifest::{Manifest, Permissions as ManifestPermissions};
use corral::manifest_policy::{PolicyEngine as ManifestPolicy, PolicyError};
use corral::permissions::{Permissions, ServicePermission};
use corral::policy::PolicyEngine;
use corral::reminders::{AddParams, ListParams};
use corral::scope::{ScopeEntry, ScopeItem};
use corral::strmap::StrMap;
use serde_json::Value;

fn obj(pairs: &[(&str, Value)]) -> Value {
    let mut m = serde_json::Map::new();
    for (k, v) in pairs {
        m.insert(k.to_string(), v.clone());
    }
    Value::Object(m)
}

fn s(x: &str) -> Value {
    Value::String(x.to_string())
}

fn core_policy() -> PolicyEngine {
    let mut scope = StrMap::new();
    scope.insert("lists".to_string(), ScopeEntry::List(vec![ScopeItem::Text("Shopping".to_string())]));
    PolicyEngine::new(
        Permissions::builder()
            .fs_read(["/tmp/**"])
            .fs_write(["/tmp/out/**"])
            .network_allow(["api.example.com:443"])
            .service("reminders", ServicePermission { access: "readwrite".to_string(), scope })
            .service("calendar", ServicePermission { access: "read".to_string(), scope: StrMap::new() })
            .build(),
    )
}

fn manifest_policy() -> ManifestPolicy {
    ManifestPolicy::new(Manifest {
        name: "t".into(),
        version: "1".into(),
        description: "d".into(),
        author: "a".into(),
        entry: "run.sh".into(),
        runtime: "bash".into(),
        permissions: ManifestPermissions {
            exec_names: Some(vec!["curl".to_string()]),
            env: Some(vec!["LANG".to_string()]),
            ..ManifestPermissions::default()
        },
    })
}

fn message<T>(r: Result<T, HandlerError>) -> String {
    match r {
        Ok(_) => panic!("expected an error"),
        Err(e) => e.message(),
    }
}

#[test]
fn env_requests() {
    let p = manifest_policy();
    assert_eq!(env_request("get", &obj(&[("name", s("LANG"))]), &p).unwrap(), "LANG");
    assert_eq!(
        message(env_request("get", &obj(&[("name", s("SECRET"))]), &p)),
        "Environment variable access denied: SECRET"
    );
    assert_eq!(message(env_request("get", &obj(&[]), &p)), "Missing 'name' parameter");
    assert_eq!(message(env_request("get", &obj(&[("name", Value::Bool(true))]), &p)), "Missing 'name' parameter");
    assert_eq!(message(env_request("set", &obj(&[("name", s("LANG"))]), &p)), "Unknown env method: set");
}

#[test]
fn exec_requests() {
    let p = manifest_policy();
    let params = obj(&[
        ("command", s("/usr/bin/curl")),
        ("args", Value::Array(vec![s("-s"), Value::from(3), s("https://x")])),
        ("cwd", s("/tmp")),
    ]);
    let plan = exec_request("run", &params, &p).unwrap();
    assert_eq!(plan.command, "/usr/bin/curl");
    assert_eq!(plan.args, vec!["-s", "https://x"]);
    assert_eq!(plan.cwd.as_deref(), Some("/tmp"));
    let plan = exec_request("run", &obj(&[("command", s("curl"))]), &p).unwrap();
    assert!(plan.args.is_empty());
    assert!(plan.cwd.is_none());
    assert_eq!(message(exec_request("run", &obj(&[("command", s("rm"))]), &p)), "Execution denied for command: rm");
    assert_eq!(message(exec_request("run", &obj(&[]), &p)), "Missing 'command' parameter");
    assert_eq!(message(exec_request("spawn", &obj(&[]), &p)), "Unknown exec method: spawn");
}

#[test]
fn fs_requests() {
    let p = core_policy();
    match fs_request("read", &obj(&[("path", s("/tmp/a.txt"))]), &p).unwrap() {
        FsOp::Read(path) => assert_eq!(path, "/tmp/a.txt"),
        other => panic!("unexpected {:?}", other),
    }
    assert!(matches!(fs_request("list", &obj(&[("path", s("/tmp/d"))]), &p), Ok(FsOp::List(_))));
    assert!(matches!(fs_request("stat", &obj(&[("path", s("/tmp/d"))]), &p), Ok(FsOp::Stat(_))));
    match fs_request("write", &obj(&[("path", s("/tmp/out/x")), ("content", s("hi"))]), &p).unwrap() {
        FsOp::Write { path, content } => {
            assert_eq!(path, "/tmp/out/x");
            assert_eq!(content, "hi");
        },
        other => panic!("unexpected {:?}", other),
    }
    assert_eq!(
        message(fs_request("write", &obj(&[("path", s("/tmp/a.txt")), ("content", s("hi"))]), &p)),
        "Write access denied for path: /tmp/a.txt"
    );
    assert_eq!(message(fs_request("write", &obj(&[("path", s("/tmp/out/x"))]), &p)), "Missing 'content' parameter");
    assert_eq!(message(fs_request("delete", &obj(&[("path", s("/tmp/a.txt"))]), &p)), "Write access denied for path: /tmp/a.txt");
    assert!(matches!(fs_request("delete", &obj(&[("path", s("/tmp/out/a"))]), &p), Ok(FsOp::Delete(_))));
    assert_eq!(message(fs_request("read", &obj(&[("path", s("/etc/passwd"))]), &p)), "Read access denied for path: /etc/passwd");
    assert_eq!(message(fs_request("read", &obj(&[]), &p)), "Missing 'path' parameter");
    assert_eq!(message(fs_request("move", &obj(&[]), &p)), "Unknown fs method: move");
}

#[test]
fn network_requests() {
    let p = core_policy();
    let params = obj(&[
        ("url", s("https://api.example.com/v1")),
        ("method", s("post")),
        ("headers", obj(&[("X-A", s("1")), ("X-N", Value::from(2))])),
        ("body", obj(&[("k", s("v"))])),
    ]);
    match network_request("http", &params, &p).unwrap() {
        NetOp::Http { verb, url, headers, body } => {
            assert_eq!(verb, HttpVerb::Post);
            assert_eq!(url, "https://api.example.com/v1");
            assert_eq!(headers, vec![("X-A".to_string(), "1".to_string())]);
            assert!(matches!(body, Some(HttpBody::Json(_))));
        },
        other => panic!("unexpected {:?}", other),
    }
    let params = obj(&[("url", s("https://api.example.com/v1")), ("body", s("raw"))]);
    match network_request("http", &params, &p).unwrap() {
        NetOp::Http { verb, body, .. } => {
            assert_eq!(verb, HttpVerb::Get);
            assert!(matches!(body, Some(HttpBody::Text(t)) if t == "raw"));
        },
        other => panic!("unexpected {:?}", other),
    }
    assert_eq!(
        message(network_request("http", &obj(&[("url", s("https://api.example.com")), ("method", s("trace"))]), &p)),
        "Unsupported HTTP method: trace"
    );
    assert_eq!(
        message(network_request("http", &obj(&[("url", s("http://api.example.com/"))]), &p)),
        "Network access denied for api.example.com:80"
    );
    assert_eq!(message(network_request("http", &obj(&[("url", s("not a url"))]), &p)), "relative URL without a base");
    assert_eq!(message(network_request("http", &obj(&[("url", s("unix:/run/x"))]), &p)), "Invalid URL: no host");
    assert_eq!(message(network_request("http", &obj(&[("url", s("foo://api.example.com/"))]), &p)), "Invalid URL: no port");
    assert_eq!(message(network_request("http", &obj(&[]), &p)), "Missing 'url' parameter");
    match network_request("download", &obj(&[("url", s("https://api.example.com/f")), ("saveTo", s("/tmp/out/f"))]), &p).unwrap() {
        NetOp::Download { url, save_to } => {
            assert_eq!(url, "https://api.example.com/f");
            assert_eq!(save_to, "/tmp/out/f");
        },
        other => panic!("unexpected {:?}", other),
    }
    assert_eq!(
        message(network_request("download", &obj(&[("url", s("https://api.example.com/f")), ("saveTo", s("/etc/f"))]), &p)),
        "Write access denied for path: /etc/f"
    );
    assert_eq!(message(network_request("download", &obj(&[("url", s("https://a"))]), &p)), "Missing 'saveTo' parameter");
    assert_eq!(message(network_request("socket", &obj(&[]), &p)), "Unknown network method: socket");
}

#[test]
fn stub_services() {
    let p = core_policy();
    let params = Value::Null;
    assert_eq!(
        message(handle_calendar("list", &params, &p)),
        "Service unavailable: calendar.list not implemented (stub)"
    );
    assert_eq!(
        message(handle_calendar("create", &params, &p)),
        "Service method 'create' not allowed for service 'calendar'"
    );
    assert_eq!(
        message(handle_browser("open", &params, &p)),
        "Service method 'open' not allowed for service 'browser'"
    );
    assert!(handle_notifications("send", &params, &p).is_err());
    assert!(handle_clipboard("read", &params, &p).is_err());
}

#[test]
fn reminders_add_denied_when_service_not_permitted() {
    let policy = PolicyEngine::new(Permissions::builder().build());
    let params = obj(&[("list", s("Reminders")), ("title", s("x"))]);

    let res = reminders_route("add", &params, &policy, true);
    assert!(res.is_err());
    assert!(message(res).contains("not allowed"));
}

#[test]
fn reminders_add_fails_closed_when_scope_restricted() {
    let mut scope = StrMap::new();
    scope.insert("lists".to_string(), ScopeEntry::List(vec![ScopeItem::Text("Shopping".to_string())]));
    let mut permissions = Permissions::builder().build();
    permissions
        .services
        .insert("reminders".to_string(), ServicePermission { access: "readwrite".to_string(), scope });
    let policy = PolicyEngine::new(permissions);
    let params = obj(&[("list", s("Work")), ("title", s("x"))]);

    for available in [true, false] {
        let parsed = Ok(RemindersCall::Add(AddParams {
            list: "Work".to_string(),
            title: "x".to_string(),
            due_date: None,
            notes: None,
            priority: None,
        }));
        let res = serve_reminders("add", &params, &policy, available, parsed);
        let msg = message(res);
        assert!(msg.contains("scope") || msg.contains("not available"));
    }
}

#[test]
fn reminders_calls_reach_the_backend_only_in_scope() {
    let p = core_policy();
    let params = Value::Null;
    let add = |list: &str| {
        Ok(RemindersCall::Add(AddParams {
            list: list.to_string(),
            title: "milk".to_string(),
            due_date: None,
            notes: None,
            priority: None,
        }))
    };
    match serve_reminders("add", &params, &p, true, add("Shopping")) {
        Ok(RemindersCall::Add(a)) => assert_eq!(a.list, "Shopping"),
        other => panic!("unexpected {:?}", other),
    }
    assert_eq!(
        message(serve_reminders("add", &params, &p, true, add("Work"))),
        "Reminders list 'Work' not in allowed scope"
    );
    let listing = |list: Option<&str>| Ok(RemindersCall::List(ListParams { list: list.map(|l| l.to_string()), completed: None }));
    assert!(serve_reminders("list", &params, &p, true, listing(None)).is_ok());
    assert_eq!(
        message(serve_reminders("list", &params, &p, true, listing(Some("Work")))),
        "Reminders list 'Work' not in allowed scope"
    );
    let bad = Err(HandlerError::InvalidParams { method: "add".to_string(), detail: "missing field `list`".to_string() });
    assert_eq!(message(serve_reminders("add", &params, &p, true, bad)), "Invalid parameters for reminders.add: missing field `list`");
    assert_eq!(
        message(serve_reminders("add", &params, &p, false, add("Shopping"))),
        "Reminders service not available on this platform"
    );
    let denied = PolicyEngine::new(Permissions::builder().build());
    assert!(message(serve_reminders("add", &params, &denied, true, add("Shopping"))).contains("not allowed"));
}

#[test]
fn reminders_routing() {
    let p = core_policy();
    let params = Value::Null;
    assert_eq!(reminders_route("list", &params, &p, true).unwrap(), RemindersOp::List);
    assert_eq!(reminders_route("update", &params, &p, true).unwrap(), RemindersOp::Update);
    assert_eq!(reminders_route("complete", &params, &p, true).unwrap(), RemindersOp::Complete);
    assert_eq!(reminders_route("delete", &params, &p, true).unwrap(), RemindersOp::Delete);
    assert_eq!(
        message(reminders_route("list", &params, &p, false)),
        "Reminders service not available on this platform"
    );
    assert_eq!(message(reminders_route("addAll", &params, &p, true)), "Unknown reminders method: addAll");
    assert!(check_list_scope(&ListParams { list: None, completed: None }, &p).is_ok());
    assert!(check_list_scope(&ListParams { list: Some("Shopping".to_string()), completed: None }, &p).is_ok());
    assert_eq!(
        message(check_list_scope(&ListParams { list: Some("Work".to_string()), completed: Some(true) }, &p)),
        "Reminders list 'Work' not in allowed scope"
    );
}

#[test]
fn invalid_params_message() {
    let e = HandlerError::InvalidParams { method: "add".to_string(), detail: "missing field `title`".to_string() };
    assert_eq!(e.message(), "Invalid parameters for reminders.add: missing field `title`");
}

#[test]
fn refusal_codes() {
    let p = core_policy();
    let m = manifest_policy();
    let code = |r: Result<(), HandlerError>| r.unwrap_err().code().number();
    let read = fs_request("read", &obj(&[("path", s("/etc/passwd"))]), &p).map(|_| ());
    assert_eq!(code(read), ErrorCode::PathDenied.number());
    let net = network_request("http", &obj(&[("url", s("https://evil.com/"))]), &p).map(|_| ());
    assert_eq!(code(net), -32006);
    let scope = check_list_scope(&ListParams { list: Some("Work".to_string()), completed: None }, &p);
    assert_eq!(code(scope), -32002);
    let stub = handle_calendar("list", &Value::Null, &p).map(|_| ());
    assert_eq!(code(stub), -32005);
    let unavailable = reminders_route("list", &Value::Null, &p, false).map(|_| ());
    assert_eq!(code(unavailable), -32005);
    let service = handle_browser("open", &Value::Null, &p).map(|_| ());
    assert_eq!(code(service), -32001);
    let env = env_request("get", &obj(&[("name", s("SECRET"))]), &m).map(|_| ());
    assert_eq!(code(env), -32001);
    let missing = fs_request("read", &obj(&[]), &p).map(|_| ());
    assert_eq!(code(missing), ErrorCode::InternalError.number());
    assert_eq!(HandlerError::Refused(PolicyError::NoFsPermissions).code().number(), -32001);
    assert_eq!(HandlerError::Refused(PolicyError::NoNetworkPermissions).code().number(), -32001);
    assert_eq!(HandlerError::Refused(PolicyError::NoHostsAllowed).code().number(), -32006);
}
