use corral::launch::{OsText, SandboxPlatform};
use corral::paths::default_work_dir;
use corral::sandbox::{ExecuteResult, Sandbox, SandboxBuilder, SandboxError};
use std::path::PathBuf;
use std::time::Duration;

fn temp_work_dir(tag: &str) -> PathBuf {
    PathBuf::from(format!("/tmp/corral-test-{}", tag))
}

fn build(builder: SandboxBuilder, tag: &str) -> Sandbox {
    Sandbox::new(builder.build(temp_work_dir(tag)), true)
}

#[test]
fn test_sandbox_builder() {
    let config = SandboxBuilder::new()
        .fs_read(["/usr/**"])
        .fs_write(["/tmp/**"])
        .network_deny()
        .exec_allow(["bash"])
        .timeout(Duration::from_secs(10))
        .work_dir(PathBuf::from("/tmp"))
        .build(temp_work_dir("builder"));
    // The library leaves creating the directories to its caller; this work
    // directory exists already.
    let sandbox = Sandbox::new(config, false);

    assert!(sandbox.work_dir().exists());
    assert!(!sandbox.policy().check_env("SECRET"));
    assert_eq!(sandbox.config().timeout, Duration::from_secs(10));
}

#[test]
fn test_preflight_ignores_slash_in_heredoc_body() {
    let sandbox = build(SandboxBuilder::new().fs_read(["/tmp/**"]).fs_write(["/tmp/**"]), "heredoc1");
    let command = "cat > /tmp/note.md <<'EOF'\nWeather: 11C / -1C\nSome text with / in it\nEOF";

    let result = sandbox.preflight_command(command);
    assert!(result.is_ok(), "heredoc content should not trigger path check: {:?}", result.err());
}

#[test]
fn test_preflight_ignores_absolute_path_in_heredoc_body() {
    let sandbox = build(SandboxBuilder::new().fs_read(["/tmp/**"]).fs_write(["/tmp/**"]), "heredoc2");
    let command = "cat > /tmp/note.md <<EOF\nDo not treat /etc/passwd as command arg\nEOF";

    let result = sandbox.preflight_command(command);
    assert!(result.is_ok(), "heredoc content should not trigger path check: {:?}", result.err());
}

#[test]
fn test_preflight_still_checks_real_absolute_path_argument() {
    let sandbox = build(SandboxBuilder::new(), "abs");
    let result = sandbox.preflight_command("cat /etc/passwd");

    assert!(result.is_err());
    assert!(result.err().unwrap().message().contains("Path access denied for: /etc/passwd"));
}

#[test]
fn test_preflight_skips_standalone_slash_token() {
    let sandbox = build(SandboxBuilder::new(), "slash");
    let result = sandbox.preflight_command("echo 11 / -1");

    assert!(result.is_ok());
}

#[test]
fn preflight_refuses_network_when_none_allowed() {
    let sandbox = build(SandboxBuilder::new(), "net");
    let result = sandbox.preflight_command("curl -sS https://example.com");
    assert!(matches!(result, Err(SandboxError::NetworkDenied)));
    assert_eq!(result.unwrap_err().message(), "Network access denied by sandbox policy");

    let allowed = build(SandboxBuilder::new().network_allow(["example.com:443"]), "net2");
    assert!(allowed.preflight_command("curl -sS https://example.com").is_ok());
}

#[test]
fn preflight_strips_punctuation_around_paths() {
    let sandbox = build(SandboxBuilder::new().fs_read(["/tmp/**"]), "punct");
    assert!(sandbox.preflight_command("cat '/tmp/a.txt';").is_ok());
    let r = sandbox.preflight_command("cat \"/etc/shadow\"");
    assert_eq!(r.unwrap_err().message(), "Path access denied for: /etc/shadow");
}

#[test]
fn default_work_dir_names_the_process() {
    let dir = default_work_dir(&PathBuf::from("/tmp"), 42);
    assert_eq!(dir, PathBuf::from("/tmp/corral-42"));
}

#[test]
fn builder_defaults() {
    let config = SandboxBuilder::new().build(PathBuf::from("/tmp/x"));
    assert_eq!(config.work_dir, PathBuf::from("/tmp/x"));
    assert_eq!(config.timeout, Duration::from_secs(30));
    assert!(config.data_dir.is_none());
    assert!(config.max_memory_mb.is_none());
    assert!(config.broker_socket.is_none());

    let config = SandboxBuilder::new()
        .work_dir(PathBuf::from("/w"))
        .data_dir(PathBuf::from("/d"))
        .max_memory_mb(64)
        .env("LANG", "C")
        .broker_socket(PathBuf::from("/s.sock"))
        .build(PathBuf::from("/tmp/x"));
    assert_eq!(config.work_dir, PathBuf::from("/w"));
    assert_eq!(config.data_dir, Some(PathBuf::from("/d")));
    assert_eq!(config.max_memory_mb, Some(64));
    assert_eq!(config.env_vars.get("LANG").map(|s| s.as_str()), Some("C"));
    assert_eq!(config.broker_socket, Some(PathBuf::from("/s.sock")));
}

fn text(a: &OsText) -> String {
    match a {
        OsText::Text(s) => s.clone(),
        OsText::Path(p) => p.to_string_lossy().to_string(),
    }
}

#[test]
fn launch_plan_passes_only_allowed_variables() {
    let sandbox = Sandbox::new(
        SandboxBuilder::new()
            .fs_read(["/usr/**"])
            .exec_allow(["bash"])
            .env("LANG", "C")
            .env("SECRET", "x")
            .broker_socket(PathBuf::from("/run/b.sock"))
            .build(PathBuf::from("/tmp/w")),
        false,
    );
    let plan = sandbox.launch_plan("echo hi", SandboxPlatform::Linux, None);
    assert_eq!(text(&plan.program), "sh");
    let args: Vec<String> = plan.args.iter().map(text).collect();
    assert_eq!(args, vec!["-c", "echo hi"]);
    assert_eq!(plan.current_dir, Some(PathBuf::from("/tmp/w")));
    assert!(plan.clear_env);
    let env: Vec<(String, String)> = plan.env.iter().map(|(k, v)| (k.clone(), text(v))).collect();
    assert_eq!(
        env,
        vec![
            ("PATH".to_string(), "/usr/bin:/bin:/usr/sbin:/sbin".to_string()),
            ("SANDBOX_SOCKET".to_string(), "/run/b.sock".to_string()),
        ]
    );
}

#[test]
fn launch_plan_preloads_per_platform() {
    let sandbox = Sandbox::new(SandboxBuilder::new().build(PathBuf::from("/tmp/w")), false);
    let linux = sandbox.launch_plan(
        "true",
        SandboxPlatform::Linux,
        Some((PathBuf::from("/lib/libsandbox.so"), PathBuf::from("/tmp/p.json"))),
    );
    let env: Vec<(String, String)> = linux.env.iter().map(|(k, v)| (k.clone(), text(v))).collect();
    assert_eq!(
        env,
        vec![
            ("PATH".to_string(), "/usr/bin:/bin:/usr/sbin:/sbin".to_string()),
            ("LD_PRELOAD".to_string(), "/lib/libsandbox.so".to_string()),
            ("SANDBOX_POLICY_FILE".to_string(), "/tmp/p.json".to_string()),
        ]
    );
    let mac = sandbox.launch_plan(
        "true",
        SandboxPlatform::MacOS,
        Some((PathBuf::from("/lib/libsandbox.dylib"), PathBuf::from("/tmp/p.json"))),
    );
    let env: Vec<(String, String)> = mac.env.iter().map(|(k, v)| (k.clone(), text(v))).collect();
    assert_eq!(
        env,
        vec![
            ("PATH".to_string(), "/usr/bin:/bin:/usr/sbin:/sbin".to_string()),
            ("DYLD_INSERT_LIBRARIES".to_string(), "/lib/libsandbox.dylib".to_string()),
            ("DYLD_FORCE_FLAT_NAMESPACE".to_string(), "1".to_string()),
            ("SANDBOX_POLICY_FILE".to_string(), "/tmp/p.json".to_string()),
        ]
    );
}

#[test]
fn serialized_policy_is_sorted_compact_json() {
    let sandbox = Sandbox::new(
        SandboxBuilder::new()
            .fs_read(["/usr/**"])
            .fs_write(["/tmp/**", "a\"b"])
            .network_allow(["api.example.com:443"])
            .exec_allow(["bash"])
            .build(PathBuf::from("/tmp/w")),
        false,
    );
    assert_eq!(
        sandbox.serialize_policy(),
        "{\"exec\":[\"bash\"],\"fs\":{\"read\":[\"/usr/**\"],\"write\":[\"/tmp/**\",\"a\\\"b\"]},\"network\":{\"allow\":[\"api.example.com:443\"]}}"
    );
    let empty = Sandbox::new(SandboxBuilder::new().build(PathBuf::from("/tmp/w")), false);
    assert_eq!(
        empty.serialize_policy(),
        "{\"exec\":[],\"fs\":{\"read\":[],\"write\":[]},\"network\":{\"allow\":[]}}"
    );
}

#[test]
fn execute_results() {
    let r = ExecuteResult::finished(Some(3), "out".to_string(), "err".to_string(), Duration::from_millis(5));
    assert_eq!(r.exit_code, 3);
    assert!(!r.was_killed);
    let r = ExecuteResult::finished(None, String::new(), String::new(), Duration::from_millis(5));
    assert_eq!(r.exit_code, -1);
    let r = ExecuteResult::timed_out(Duration::from_millis(100));
    assert_eq!(r.exit_code, -1);
    assert_eq!(r.stderr, "Timeout exceeded");
    assert!(r.stdout.is_empty());
    assert!(r.was_killed);
}

#[test]
fn sandbox_network_deny_holds_through_later_calls() {
    let sandbox = build(
        SandboxBuilder::new().fs_read(["/tmp/**"]).network_deny().network_allow(["api.example.com:443"]),
        "deny-chain",
    );
    assert!(matches!(sandbox.preflight_command("curl https://api.example.com/"), Err(SandboxError::NetworkDenied)));
    assert!(sandbox.preflight_command("cat /tmp/x").is_ok());
}
