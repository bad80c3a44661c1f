use corral::manifest::{
    AccessLevel, FsPermissions, Manifest, ManifestError, NetworkPermissions, Permissions, ScopeDoc,
    ServiceAccess, ServicePermissions,
};
use corral::manifest_policy::PolicyEngine;
use corral::scope::{ScopeEntry, ScopeItem};
use corral::strmap::StrMap;

fn strings(items: &[&str]) -> Vec<String> {
    items.iter().map(|s| s.to_string()).collect()
}

fn manifest_with(permissions: Permissions) -> Manifest {
    Manifest {
        name: "test".into(),
        version: "1.0.0".into(),
        description: "test".into(),
        author: "test".into(),
        entry: "./run.sh".into(),
        runtime: "bash".into(),
        permissions,
    }
}

fn create_test_manifest() -> Manifest {
    manifest_with(Permissions {
        fs: Some(FsPermissions {
            read: Some(strings(&["$SKILL_DIR/**", "$DATA_DIR/config.json"])),
            write: Some(strings(&["$WORK_DIR/**", "$DATA_DIR/**"])),
        }),
        network: Some(NetworkPermissions {
            allow: Some(strings(&["api.example.com:443", "*.cdn.example.com:443"])),
        }),
        services: Some(ServicePermissions {
            reminders: Some(ServiceAccess { access: AccessLevel::ReadWrite, scope: None }),
            calendar: Some(ServiceAccess { access: AccessLevel::Read, scope: None }),
            ..Default::default()
        }),
        exec_names: Some(strings(&["curl", "jq"])),
        env: Some(strings(&["LANG", "TZ"])),
    })
}

#[test]
fn test_file_read_allowed() {
    let policy = PolicyEngine::new(create_test_manifest());
    assert!(policy.check_file_read("test.txt").is_ok());
    assert!(policy.check_file_read("data/config.json").is_ok());
}

#[test]
fn test_file_read_denied() {
    let policy = PolicyEngine::new(create_test_manifest());
    assert!(policy.check_file_read("/etc/passwd").is_err());
}

#[test]
fn test_file_write_allowed() {
    let policy = PolicyEngine::new(create_test_manifest());
    assert!(policy.check_file_write("work/output.txt").is_ok());
    assert!(policy.check_file_write("data/state.json").is_ok());
}

#[test]
fn test_file_write_denied() {
    let policy = PolicyEngine::new(create_test_manifest());
    assert!(policy.check_file_write("/etc/passwd").is_err());
}

#[test]
fn policy_test_network_allowed() {
    let policy = PolicyEngine::new(create_test_manifest());
    assert!(policy.check_network("api.example.com", 443).is_ok());
    assert!(policy.check_network("sub.cdn.example.com", 443).is_ok());
}

#[test]
fn policy_test_network_denied() {
    let policy = PolicyEngine::new(create_test_manifest());
    assert!(policy.check_network("evil.com", 443).is_err());
    assert!(policy.check_network("api.example.com", 80).is_err());
}

#[test]
fn policy_test_service_allowed() {
    let policy = PolicyEngine::new(create_test_manifest());
    let params = serde_json::Value::Object(serde_json::Map::new());

    assert!(policy.check_service("reminders", "add", &params).is_ok());
    assert!(policy.check_service("calendar", "list", &params).is_ok());
}

#[test]
fn policy_test_service_denied() {
    let policy = PolicyEngine::new(create_test_manifest());
    let params = serde_json::Value::Object(serde_json::Map::new());

    // Calendar is read-only
    assert!(policy.check_service("calendar", "create", &params).is_err());

    // Browser not permitted
    assert!(policy.check_service("browser", "open", &params).is_err());
}

#[test]
fn policy_test_exec_allowed() {
    let policy = PolicyEngine::new(create_test_manifest());
    assert!(policy.check_exec("curl").is_ok());
    assert!(policy.check_exec("/usr/bin/jq").is_ok());
}

#[test]
fn policy_test_exec_denied() {
    let policy = PolicyEngine::new(create_test_manifest());
    assert!(policy.check_exec("rm").is_err());
}

#[test]
fn policy_test_env_allowed() {
    let policy = PolicyEngine::new(create_test_manifest());
    assert!(policy.check_env("LANG").is_ok());
    assert!(policy.check_env("TZ").is_ok());
}

#[test]
fn policy_test_env_denied() {
    let policy = PolicyEngine::new(create_test_manifest());
    assert!(policy.check_env("SECRET_KEY").is_err());
}

#[test]
fn test_invalid_runtime() {
    let mut manifest = manifest_with(Permissions::default());
    manifest.name = "test-skill".into();
    manifest.description = "Test".into();
    manifest.runtime = "invalid".into();
    assert!(manifest.validate().is_err());
}

#[test]
fn validation_errors() {
    let ok = create_test_manifest();
    assert!(ok.validate().is_ok());
    for runtime in ["bash", "sh", "python", "python3", "node"] {
        let mut m = manifest_with(Permissions::default());
        m.runtime = runtime.into();
        assert!(m.validate().is_ok());
    }
    let mut m = manifest_with(Permissions::default());
    m.name = String::new();
    assert!(matches!(m.validate(), Err(ManifestError::EmptyName)));
    assert_eq!(m.validate().unwrap_err().message(), "Skill name cannot be empty");
    let mut m = manifest_with(Permissions::default());
    m.version = String::new();
    assert!(matches!(m.validate(), Err(ManifestError::EmptyVersion)));
    let mut m = manifest_with(Permissions::default());
    m.entry = String::new();
    assert!(matches!(m.validate(), Err(ManifestError::EmptyEntry)));
    let mut m = manifest_with(Permissions::default());
    m.runtime = String::new();
    assert!(matches!(m.validate(), Err(ManifestError::EmptyRuntime)));
    let mut m = manifest_with(Permissions::default());
    m.runtime = "ruby".into();
    assert_eq!(
        m.validate().unwrap_err().message(),
        "Invalid runtime 'ruby'. Must be one of: bash, sh, python, python3, node"
    );
}

#[test]
fn undeclared_manifest_is_refused_everything() {
    let policy = PolicyEngine::new(manifest_with(Permissions::default()));
    let params = serde_json::Value::Null;
    assert_eq!(policy.check_file_read("a").unwrap_err().message(), "No filesystem permissions declared");
    assert_eq!(policy.check_network("a.com", 443).unwrap_err().message(), "No network permissions declared");
    assert_eq!(
        policy.check_service("reminders", "list", &params).unwrap_err().message(),
        "No service permissions declared"
    );
    assert_eq!(policy.check_exec("ls").unwrap_err().message(), "No exec permissions declared");
    assert_eq!(policy.check_env("PATH").unwrap_err().message(), "No env permissions declared");
    assert!(policy.check_reminders_scope("Shopping").is_err());
}

#[test]
fn manifest_refusal_messages() {
    let policy = PolicyEngine::new(create_test_manifest());
    let params = serde_json::Value::Null;
    assert_eq!(
        policy.check_service("calendar", "create", &params).unwrap_err().message(),
        "Method 'create' not allowed for service 'calendar' with access level Read"
    );
    assert_eq!(
        policy.check_service("browser", "open", &params).unwrap_err().message(),
        "Service 'browser' not permitted"
    );
    assert_eq!(
        policy.check_service("weather", "get", &params).unwrap_err().message(),
        "Unknown service: weather"
    );
    assert_eq!(
        policy.check_network("evil.com", 443).unwrap_err().message(),
        "Network access denied for evil.com:443"
    );
}

#[test]
fn scope_message_renders_every_item() {
    let mut scope = StrMap::new();
    scope.insert(
        "lists".to_string(),
        ScopeEntry::List(vec![
            ScopeItem::Text("a\"b".to_string()),
            ScopeItem::Other("Number(1)".to_string()),
            ScopeItem::Text("Home".to_string()),
        ]),
    );
    let policy = PolicyEngine::new(manifest_with(Permissions {
        services: Some(ServicePermissions {
            reminders: Some(ServiceAccess { access: AccessLevel::Read, scope: Some(ScopeDoc::Object(scope)) }),
            ..Default::default()
        }),
        ..Permissions::default()
    }));
    assert_eq!(
        policy.check_reminders_scope("Work").unwrap_err().message(),
        "List 'Work' not in allowed scope. Allowed lists: [String(\"a\\\"b\"), Number(1), String(\"Home\")]"
    );
    assert!(policy.check_reminders_scope("Home").is_ok());
}

fn scoped_manifest() -> Manifest {
    let mut scope = StrMap::new();
    scope.insert(
        "lists".to_string(),
        ScopeEntry::List(vec![ScopeItem::Text("Shopping".to_string())]),
    );
    manifest_with(Permissions {
        services: Some(ServicePermissions {
            reminders: Some(ServiceAccess { access: AccessLevel::ReadWrite, scope: Some(ScopeDoc::Object(scope)) }),
            ..Default::default()
        }),
        ..Permissions::default()
    })
}

#[test]
fn manifest_scope() {
    let policy = PolicyEngine::new(scoped_manifest());
    assert!(policy.check_reminders_scope("Shopping").is_ok());
    assert_eq!(
        policy.check_reminders_scope("Work").unwrap_err().message(),
        "List 'Work' not in allowed scope. Allowed lists: [String(\"Shopping\")]"
    );
    let unscoped = PolicyEngine::new(create_test_manifest());
    assert!(unscoped.check_reminders_scope("Anything").is_ok());
}

#[test]
fn translation_keeps_decisions() {
    let manifest = create_test_manifest();
    let core = corral::policy::PolicyEngine::new(manifest.to_permissions());
    let policy = PolicyEngine::new(create_test_manifest());
    let params = serde_json::Value::Null;
    for path in ["test.txt", "data/config.json", "/etc/passwd", "/skill/x", "work/a"] {
        assert_eq!(policy.check_file_read(path).is_ok(), core.check_path_read(path));
        assert_eq!(policy.check_file_write(path).is_ok(), core.check_path_write(path));
    }
    for (host, port) in [("api.example.com", 443), ("x.cdn.example.com", 443), ("evil.com", 443)] {
        assert_eq!(policy.check_network(host, port).is_ok(), core.check_network(host, port));
    }
    for cmd in ["curl", "/usr/bin/jq", "rm"] {
        assert_eq!(policy.check_exec(cmd).is_ok(), core.check_exec(cmd));
    }
    for var in ["LANG", "SECRET"] {
        assert_eq!(policy.check_env(var).is_ok(), core.check_env(var));
    }
    for (service, method) in [("reminders", "add"), ("calendar", "list"), ("calendar", "create"), ("browser", "open")] {
        assert_eq!(policy.check_service(service, method, &params).is_ok(), core.check_service(service, method));
    }
    let scoped = scoped_manifest();
    let core = corral::policy::PolicyEngine::new(scoped.to_permissions());
    let policy = PolicyEngine::new(scoped_manifest());
    for list in ["Shopping", "Work"] {
        assert_eq!(policy.check_reminders_scope(list).is_ok(), core.check_reminders_scope(list));
    }
}

#[test]
fn test_policy_engine() {
    let manifest = manifest_with(Permissions {
        fs: Some(FsPermissions { read: Some(strings(&["*.txt", "config/**"])), write: None }),
        network: Some(NetworkPermissions { allow: Some(strings(&["api.example.com:443"])) }),
        services: None,
        exec_names: Some(strings(&["curl"])),
        env: Some(strings(&["PATH"])),
    });
    let policy = corral::policy::PolicyEngine::new(manifest.to_permissions());

    assert!(policy.check_network("api.example.com", 443));
    assert!(!policy.check_network("evil.com", 443));
    assert!(policy.check_exec("curl"));
    assert!(policy.check_exec("/usr/bin/curl"));
    assert!(!policy.check_exec("rm"));
    assert!(policy.check_env("PATH"));
    assert!(!policy.check_env("SECRET"));
    assert!(policy.check_path_read("test.txt"));
    assert!(policy.check_path_read("readme.txt"));
    assert!(policy.check_path_read("config/app.json"));
    assert!(!policy.check_path_read("data/sensitive.db"));
}

#[test]
fn access_level_names() {
    assert_eq!(AccessLevel::ReadWrite.name(), "readwrite");
    assert_eq!(AccessLevel::ReadWrite.debug_name(), "ReadWrite");
    assert_eq!(AccessLevel::Send.name(), "send");
    assert_eq!(AccessLevel::Open.debug_name(), "Open");
}
