use corral::permissions::{Permissions, ServicePermission};
use corral::policy::PolicyEngine;
use corral::scope::{ScopeEntry, ScopeItem};
use corral::strmap::StrMap;

fn create_test_permissions() -> Permissions {
    let mut services = StrMap::new();

    let mut reminders_scope = StrMap::new();
    reminders_scope.insert(
        "lists".to_string(),
        ScopeEntry::List(vec![ScopeItem::Text("Shopping".to_string())]),
    );

    services.insert(
        "reminders".to_string(),
        ServicePermission { access: "readwrite".to_string(), scope: reminders_scope },
    );

    services.insert(
        "calendar".to_string(),
        ServicePermission { access: "read".to_string(), scope: StrMap::new() },
    );

    let mut perms = Permissions::builder()
        .fs_read(["$SKILL_DIR/**", "$DATA_DIR/config.json"])
        .fs_write(["$WORK_DIR/**", "$DATA_DIR/**"])
        .network_allow(["api.example.com:443", "*.cdn.example.com:443"])
        .exec_allow(["curl", "jq"])
        .env_allow(["LANG", "TZ"])
        .build();

    perms.services = services;
    perms
}

#[test]
fn test_path_read_allowed() {
    let policy = PolicyEngine::new(create_test_permissions());
    assert!(policy.check_path_read("test.txt"));
    assert!(policy.check_path_read("data/config.json"));
}

#[test]
fn test_path_read_denied() {
    let policy = PolicyEngine::new(create_test_permissions());
    assert!(!policy.check_path_read("/etc/passwd"));
}

#[test]
fn test_path_write_allowed() {
    let policy = PolicyEngine::new(create_test_permissions());
    assert!(policy.check_path_write("work/output.txt"));
    assert!(policy.check_path_write("data/state.json"));
}

#[test]
fn test_path_write_denied() {
    let policy = PolicyEngine::new(create_test_permissions());
    assert!(!policy.check_path_write("/etc/passwd"));
}

#[test]
fn test_network_allowed() {
    let policy = PolicyEngine::new(create_test_permissions());
    assert!(policy.check_network("api.example.com", 443));
    assert!(policy.check_network("sub.cdn.example.com", 443));
}

#[test]
fn test_network_denied() {
    let policy = PolicyEngine::new(create_test_permissions());
    assert!(!policy.check_network("evil.com", 443));
    assert!(!policy.check_network("api.example.com", 80));
}

#[test]
fn test_service_allowed() {
    let policy = PolicyEngine::new(create_test_permissions());

    assert!(policy.check_service("reminders", "add"));
    assert!(policy.check_service("reminders", "list"));
    assert!(policy.check_service("calendar", "list"));
}

#[test]
fn test_service_denied() {
    let policy = PolicyEngine::new(create_test_permissions());

    // Calendar is read-only
    assert!(!policy.check_service("calendar", "create"));

    // Browser not permitted
    assert!(!policy.check_service("browser", "open"));
}

#[test]
fn test_exec_allowed() {
    let policy = PolicyEngine::new(create_test_permissions());
    assert!(policy.check_exec("curl"));
    assert!(policy.check_exec("/usr/bin/jq"));
}

#[test]
fn test_exec_denied() {
    let policy = PolicyEngine::new(create_test_permissions());
    assert!(!policy.check_exec("rm"));
}

#[test]
fn test_env_allowed() {
    let policy = PolicyEngine::new(create_test_permissions());
    assert!(policy.check_env("LANG"));
    assert!(policy.check_env("TZ"));
}

#[test]
fn test_env_denied() {
    let policy = PolicyEngine::new(create_test_permissions());
    assert!(!policy.check_env("SECRET_KEY"));
}

#[test]
fn test_reminders_scope_allowed() {
    let policy = PolicyEngine::new(create_test_permissions());
    assert!(policy.check_reminders_scope("Shopping"));
}

#[test]
fn test_reminders_scope_denied() {
    let policy = PolicyEngine::new(create_test_permissions());
    assert!(!policy.check_reminders_scope("Work"));
}

#[test]
fn refusal_messages() {
    let policy = PolicyEngine::new(create_test_permissions());
    assert_eq!(
        policy.check_file_read("/etc/passwd").unwrap_err().message(),
        "Read access denied for path: /etc/passwd"
    );
    assert_eq!(
        policy.check_file_write("/etc/passwd").unwrap_err().message(),
        "Write access denied for path: /etc/passwd"
    );
    assert_eq!(
        policy.check_network_result("evil.com", 443).unwrap_err().message(),
        "Network access denied for evil.com:443"
    );
    assert_eq!(policy.check_exec_result("rm").unwrap_err().message(), "Execution denied for command: rm");
    assert_eq!(
        policy.check_env_result("SECRET").unwrap_err().message(),
        "Environment variable access denied: SECRET"
    );
    let params = serde_json::Value::Null;
    assert_eq!(
        policy.check_service_result("browser", "open", &params).unwrap_err().message(),
        "Service method 'open' not allowed for service 'browser'"
    );
    assert_eq!(
        policy.check_reminders_scope_result("Work").unwrap_err().message(),
        "Reminders list 'Work' not in allowed scope"
    );
    assert!(policy.check_file_read("test.txt").is_ok());
}

#[test]
fn wildcard_scope_admits_any_list() {
    let mut scope = StrMap::new();
    scope.insert("lists".to_string(), ScopeEntry::List(vec![ScopeItem::Text("*".to_string())]));
    let perms = Permissions::builder()
        .service("reminders", ServicePermission { access: "read".to_string(), scope })
        .build();
    let policy = PolicyEngine::new(perms);
    assert!(policy.check_reminders_scope("Anything"));
    assert!(policy.check_reminders_scope("Work"));
}

#[test]
fn access_levels() {
    let perms = Permissions::builder()
        .service("reminders", ServicePermission { access: "write".to_string(), scope: StrMap::new() })
        .service("browser", ServicePermission { access: "open".to_string(), scope: StrMap::new() })
        .service("notifications", ServicePermission { access: "send".to_string(), scope: StrMap::new() })
        .build();
    let policy = PolicyEngine::new(perms);
    assert!(policy.check_service("reminders", "add"));
    assert!(policy.check_service("reminders", "delete"));
    // Writing implies reading.
    assert!(policy.check_service("reminders", "list"));
    assert!(!policy.check_service("reminders", "complete"));
    assert!(policy.check_service("browser", "open"));
    assert!(!policy.check_service("browser", "close"));
    assert!(policy.check_service("notifications", "send"));
    assert!(!policy.check_service("notifications", "sendAll"));
}

#[test]
fn skill_dir_pattern_refuses_absolute_paths_elsewhere() {
    let policy = PolicyEngine::new(create_test_permissions());
    assert!(policy.check_path_read("/skill/run.sh"));
    assert!(!policy.check_path_read("/home/user/run.sh"));
    assert!(policy.check_path_write("/work/out.txt"));
    assert!(!policy.check_path_write("/data2/out.txt"));
}

#[test]
fn network_wildcards() {
    let policy = PolicyEngine::new(
        Permissions::builder().network_allow(["example.com:*", "*:8443", "*.cdn.net"]).build(),
    );
    assert!(policy.check_network("example.com", 443));
    assert!(policy.check_network("example.com", 80));
    assert!(!policy.check_network("api.example.com", 443));
    assert!(policy.check_network("anything.org", 8443));
    assert!(!policy.check_network("anything.org", 443));
    assert!(policy.check_network("img.cdn.net", 443));
    assert!(policy.check_network("cdn.net", 80));
}

#[test]
fn star_dot_pattern_covers_subdomains_only() {
    let policy = PolicyEngine::new(Permissions::builder().network_allow(["*.example.com:443"]).build());
    assert!(policy.check_network("api.example.com", 443));
    assert!(policy.check_network("cdn.example.com", 443));
    assert!(policy.check_network("a.b.example.com", 443));
    assert!(!policy.check_network("evilexample.com", 443));
    assert!(!policy.check_network("api.example.com", 80));
}

#[test]
fn exec_list_may_hold_absolute_paths() {
    let policy = PolicyEngine::new(Permissions::builder().exec_allow(["/usr/bin/ffmpeg", "jq"]).build());
    assert!(policy.check_exec("/usr/bin/ffmpeg"));
    assert!(policy.check_exec("jq"));
    assert!(policy.check_exec("/opt/bin/jq"));
    assert!(!policy.check_exec("ffmpeg"));
    assert!(!policy.check_exec("/opt/bin/ffmpeg"));
}
