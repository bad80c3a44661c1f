use corral::broker::{BrokerConfig, BrokerStats, Namespace, RouteError, route_request, split_method};
use corral::cli::{
    approval, broker_reply, inspect_report, parse_params, select_mode, ExecutionResult, LinuxIsolationMode,
    Watchdog,
};
use corral::jsonrpc::{ErrorCode, Response};
use corral::manifest::{
    AccessLevel, FsPermissions, Manifest, NetworkPermissions, Permissions, ServiceAccess, ServicePermissions,
};
use corral::paths::{create_socket_path, get_audit_log_dir, skill_data_dir, audit_file_name, work_dir_name, policy_file_name};
use serde_json::Value;
use std::path::PathBuf;

fn manifest(permissions: Permissions) -> Manifest {
    Manifest {
        name: "test".into(),
        version: "1.0.0".into(),
        description: "test".into(),
        author: "test".into(),
        entry: "./run.sh".into(),
        runtime: "bash".into(),
        permissions,
    }
}

#[test]
fn test_watchdog_create() {
    let manifest = manifest(Permissions::default());

    let mut watchdog = Watchdog::new(manifest);
    assert!(watchdog.stop().is_ok());
    assert!(watchdog.is_stopped());
}

#[test]
fn test_audit_log_dir() {
    let dir = get_audit_log_dir(Some(PathBuf::from("/home/u/.local/share")));
    assert!(dir.to_string_lossy().contains("corral"));
    assert!(dir.to_string_lossy().contains("audit"));
    assert_eq!(get_audit_log_dir(None), PathBuf::from("/tmp/corral/audit"));
}

#[test]
fn test_parse_params() {
    let params = vec!["path=/tmp/test.txt".to_string(), "count=5".to_string(), "enabled=true".to_string()];

    let result = parse_params(&params).unwrap();
    assert_eq!(result["path"], "/tmp/test.txt");
    assert_eq!(result["count"], 5);
    assert_eq!(result["enabled"], true);
}

#[test]
fn test_parse_empty_params() {
    let params = vec![];
    let result = parse_params(&params).unwrap();
    assert_eq!(result, Value::Null);
}

#[test]
fn parse_params_takes_flags() {
    let words: Vec<String> = ["--list", "Shopping", "--completed", "false", "--title=Buy milk", "count=2"]
        .iter()
        .map(|s| s.to_string())
        .collect();
    let r = parse_params(&words).unwrap();
    assert_eq!(r["list"], "Shopping");
    assert_eq!(r["completed"], false);
    assert_eq!(r["title"], "Buy milk");
    assert_eq!(r["count"], 2);
    let dangling = vec!["--list".to_string()];
    assert_eq!(parse_params(&dangling).unwrap_err(), "Invalid parameter format: --list. Expected key=value");
}

#[test]
fn parse_params_errors_and_values() {
    let bad = vec!["ok=1".to_string(), "novalue".to_string()];
    assert_eq!(parse_params(&bad).unwrap_err(), "Invalid parameter format: novalue. Expected key=value");
    let r = parse_params(&vec!["a=b=c".to_string(), "a=2".to_string(), "j={\"x\":[1]}".to_string()]).unwrap();
    assert_eq!(r["a"], 2);
    assert_eq!(r["j"]["x"][0], 1);
    let r = parse_params(&vec!["e=".to_string()]).unwrap();
    assert_eq!(r["e"], "");
}

fn obj(pairs: &[(&str, Value)]) -> Value {
    let mut m = serde_json::Map::new();
    for (k, v) in pairs {
        m.insert(k.to_string(), v.clone());
    }
    Value::Object(m)
}

#[test]
fn broker_replies() {
    let ok = obj(&[("jsonrpc", Value::from("2.0")), ("result", obj(&[("x", Value::from(1))]))]);
    assert_eq!(broker_reply(&ok).unwrap()["x"], 1);
    let err = obj(&[("error", obj(&[("code", Value::from(-32001)), ("message", Value::from("Permission denied"))]))]);
    assert_eq!(broker_reply(&err).unwrap_err(), "Broker error (-32001): Permission denied");
    let bare = obj(&[("error", obj(&[]))]);
    assert_eq!(broker_reply(&bare).unwrap_err(), "Broker error (-1): Unknown error");
    assert_eq!(broker_reply(&obj(&[])).unwrap_err(), "No result in response");
}

#[test]
fn inspect_report_lines() {
    let m = manifest(Permissions {
        fs: Some(FsPermissions { read: Some(vec!["$SKILL_DIR/**".into()]), write: None }),
        network: Some(NetworkPermissions { allow: Some(vec!["api.example.com:443".into()]) }),
        services: Some(ServicePermissions {
            reminders: Some(ServiceAccess { access: AccessLevel::Read, scope: None }),
            clipboard: Some(ServiceAccess { access: AccessLevel::Read, scope: None }),
            ..Default::default()
        }),
        exec_names: Some(vec!["curl".into()]),
        env: None,
    });
    let lines = inspect_report(&m);
    assert_eq!(
        lines,
        vec![
            "📦 Skill: test v1.0.0",
            "   Author: test",
            "   Description: test",
            "",
            "Permissions requested:",
            "",
            "📁 File Access:",
            "   Read:",
            "     - $SKILL_DIR/**",
            "",
            "🌐 Network:",
            "   - api.example.com:443",
            "",
            "🔧 Services:",
            "   - Reminders",
            "   - Clipboard",
            "",
            "⚙️  Executables:",
            "   - curl",
            "",
        ]
    );
    let bare = inspect_report(&manifest(Permissions::default()));
    assert_eq!(bare.len(), 6);
}

#[test]
fn approval_answers() {
    assert_eq!(approval("skill", "y\n"), (true, "✅ Permissions approved for skill".to_string()));
    assert_eq!(approval("skill", "  Y  "), (true, "✅ Permissions approved for skill".to_string()));
    assert_eq!(approval("skill", "yes"), (false, "❌ Permissions denied".to_string()));
    assert_eq!(approval("skill", ""), (false, "❌ Permissions denied".to_string()));
}

#[test]
fn execution_results_and_modes() {
    let r = ExecutionResult::from_exit(None, "o".into(), "e".into());
    assert_eq!(r.exit_code, -1);
    let r = ExecutionResult::from_exit(Some(0), "o".into(), "e".into());
    assert_eq!(r.exit_code, 0);
    assert_eq!(select_mode(true), LinuxIsolationMode::Bwrap);
    assert_eq!(select_mode(false), LinuxIsolationMode::Preload);
}

#[test]
fn names_and_paths() {
    assert_eq!(work_dir_name(17), "corral-work-17");
    assert_eq!(policy_file_name(17), "corral-policy-17.json");
    assert_eq!(audit_file_name("20240102"), "audit-20240102.jsonl");
    assert_eq!(
        create_socket_path(Some("/run/user/1".into()), Some("/var/tmp".into()), 9),
        PathBuf::from("/run/user/1/corral-broker-9.sock")
    );
    assert_eq!(create_socket_path(None, Some("/var/tmp".into()), 9), PathBuf::from("/var/tmp/corral-broker-9.sock"));
    assert_eq!(create_socket_path(None, None, 9), PathBuf::from("/tmp/corral-broker-9.sock"));
    assert_eq!(
        corral::paths::create_core_socket_path(None, None, 9, 123456789012345678901234567890),
        PathBuf::from("/tmp/corral-broker-9-123456789012345678901234567890.sock")
    );
    assert_eq!(
        skill_data_dir(Some(PathBuf::from("/data")), "shop"),
        PathBuf::from("/data/corral/skills/shop")
    );
    assert_eq!(skill_data_dir(None, "shop"), PathBuf::from("/tmp/corral/skills/shop"));
}

#[test]
fn method_routing() {
    let (ns, op) = split_method("fs.read").unwrap();
    assert_eq!((ns.as_str(), op.as_str()), ("fs", "read"));
    assert!(split_method("fs").is_none());
    assert!(split_method("a.b.c").is_none());
    assert!(matches!(route_request("reminders.add"), Ok((Namespace::Reminders, ref op)) if op == "add"));
    assert!(matches!(route_request("env.get"), Ok((Namespace::Env, _))));
    let e = route_request("weather.get").unwrap_err();
    assert!(matches!(e, RouteError::UnknownNamespace(ref n) if n == "weather"));
    assert_eq!(e.message(), "Unknown namespace: weather");
    let e = route_request("fs.read.all").unwrap_err();
    assert_eq!(e.message(), "Invalid method format: fs.read.all");
}

#[test]
fn handler_registry() {
    let policy = corral::policy::PolicyEngine::new(corral::permissions::Permissions::builder().build());
    let mut config = BrokerConfig::new(policy);
    config.register_handler("echo", 0);
    assert!(config.handlers.contains_key("echo"));
    let (slot, op) = config.route("echo.say").unwrap();
    assert_eq!((slot, op.as_str()), (0, "say"));
    config.register_handler("echo", 3);
    assert_eq!(config.route("echo.say").unwrap().0, 3);
    assert_eq!(config.route("other.x").unwrap_err().message(), "Unknown namespace: other");
    assert_eq!(config.route("nodot").unwrap_err().message(), "Invalid method format: nodot");
}

#[test]
fn stats_stay_balanced_over_a_connection() {
    let mut stats = BrokerStats::new();
    let lines: [Option<(&str, bool)>; 5] =
        [Some(("fs.read", true)), None, Some(("net.http", false)), Some(("fs.read", false)), None];
    for line in lines {
        if let Some((method, ok)) = line {
            stats.record_call(method);
            stats.record_outcome(ok);
        }
    }
    assert_eq!(stats.total_calls, 3);
    assert_eq!(stats.allowed_calls, 1);
    assert_eq!(stats.denied_calls, 2);
    assert_eq!(stats.calls_for("fs.read"), 2);
}

#[test]
fn stats_balance() {
    let mut stats = BrokerStats::new();
    stats.record_call("fs.read");
    stats.record_outcome(true);
    stats.record_call("fs.read");
    stats.record_outcome(false);
    stats.record_call("env.get");
    stats.record_outcome(true);
    assert_eq!(stats.total_calls, 3);
    assert_eq!(stats.allowed_calls + stats.denied_calls, stats.total_calls);
    assert_eq!(stats.calls_for("fs.read"), 2);
    assert_eq!(stats.calls_for("env.get"), 1);
    assert_eq!(stats.calls_for("net.http"), 0);
}

#[test]
fn jsonrpc_responses() {
    let r = Response::from_result(Some(Value::from(1)), Err("Read access denied for path: /x".to_string()));
    let e = r.error.unwrap();
    assert_eq!(e.code, ErrorCode::PathDenied.number());
    assert_eq!(e.code, -32007);
    assert_eq!(e.message, "Read access denied for path: /x");
    let r = Response::from_result(Some(Value::from(1)), Ok(Value::from(true)));
    assert!(r.error.is_none());
    assert_eq!(r.result, Some(Value::from(true)));
    assert_eq!(ErrorCode::InvalidRequest.number(), -32600);
}

#[test]
fn jsonrpc_codes_follow_the_kind_of_refusal() {
    let code = |m: &str| Response::from_result(None, Err(m.to_string())).error.unwrap().code;
    assert_eq!(code("Reminders list 'Work' not in allowed scope. Allowed lists: [\"Shopping\"]"), -32002);
    assert_eq!(code("Network access denied for evil.com:443"), -32006);
    assert_eq!(code("No network hosts allowed"), -32006);
    assert_eq!(code("Reminders service not available on this platform"), -32005);
    assert_eq!(code("Service unavailable: calendar.list not implemented (stub)"), -32005);
    assert_eq!(code("Write access denied for path: /etc/x"), -32007);
    assert_eq!(code("No filesystem permissions declared"), -32001);
    assert_eq!(code("Service 'calendar' not permitted"), -32001);
    assert_eq!(code("Method 'add' not allowed for service 'reminders' with access level Read"), -32001);
    assert_eq!(code("Environment variable 'SECRET' access denied"), -32001);
    assert_eq!(code("Method not found"), -32601);
    assert_eq!(code("invalid input"), -32602);
    assert_eq!(code("Invalid parameters for reminders.add: missing field `list`"), -32602);
    assert_eq!(code("Missing 'path' parameter"), -32603);
}
