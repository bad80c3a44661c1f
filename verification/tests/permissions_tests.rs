use corral::permissions::{intersect_patterns, more_specific, specificity_score, Permissions, ServicePermission};
use corral::scope::{ScopeEntry, ScopeItem};
use corral::strmap::StrMap;

fn strings(items: &[&str]) -> Vec<String> {
    items.iter().map(|s| s.to_string()).collect()
}

fn shopping_scope() -> StrMap<ScopeEntry> {
    let mut scope = StrMap::new();
    scope.insert(
        "lists".to_string(),
        ScopeEntry::List(vec![ScopeItem::Text("Shopping".to_string())]),
    );
    scope
}

#[test]
fn test_builder_basic() {
    let perms = Permissions::builder()
        .fs_read(["/usr/**", "/etc/**"])
        .fs_write(["/tmp/**"])
        .network_allow(["api.example.com:443"])
        .exec_allow(["curl", "bash"])
        .env_allow(["PATH", "HOME"])
        .build();

    assert_eq!(perms.fs.read.len(), 2);
    assert_eq!(perms.fs.write.len(), 1);
    assert_eq!(perms.network.allow.len(), 1);
    assert_eq!(perms.exec_names.len(), 2);
    assert_eq!(perms.env.len(), 2);
}

#[test]
fn test_network_deny() {
    let perms = Permissions::builder()
        .network_allow(["api.example.com:443"])
        .network_deny()
        .build();

    assert!(perms.network.allow.is_empty());
}

#[test]
fn test_intersect() {
    let perms1 = Permissions::builder()
        .fs_read(["/usr/**", "/etc/**"])
        .fs_write(["/tmp/**", "/var/**"])
        .exec_allow(["curl", "bash", "python"])
        .build();

    let perms2 = Permissions::builder()
        .fs_read(["/usr/**", "/home/**"])
        .fs_write(["/tmp/**"])
        .exec_allow(["curl", "jq"])
        .build();

    let intersection = perms1.intersect(&perms2);

    assert_eq!(intersection.fs.read, vec!["/usr/**"]);
    assert_eq!(intersection.fs.write, vec!["/tmp/**"]);
    assert_eq!(intersection.exec_names, vec!["curl"]);
}

#[test]
fn test_intersect_network_pattern_with_literal() {
    let perms1 = Permissions::builder().network_allow(["*.example.com:443"]).build();
    let perms2 = Permissions::builder().network_allow(["api.example.com:443"]).build();

    let intersection = perms1.intersect(&perms2);
    assert_eq!(intersection.network.allow, vec!["api.example.com:443"]);
}

#[test]
fn test_service_permission() {
    let service_perm = ServicePermission { access: "readwrite".to_string(), scope: shopping_scope() };

    let perms = Permissions::builder().service("reminders", service_perm).build();

    assert!(perms.services.contains_key("reminders"));
    assert_eq!(perms.services.get("reminders").unwrap().access, "readwrite");
}

#[test]
fn nothing_granted_denies_everything() {
    let policy = corral::policy::PolicyEngine::new(Permissions::builder().build());
    assert!(!policy.check_path_read("/tmp/a"));
    assert!(!policy.check_path_write("a.txt"));
    assert!(!policy.check_network("example.com", 443));
    assert!(!policy.check_exec("ls"));
    assert!(!policy.check_env("PATH"));
    assert!(!policy.check_service("reminders", "list"));
    assert!(!policy.check_reminders_scope("Shopping"));
}

#[test]
fn network_deny_wins_over_later_allow() {
    let perms = Permissions::builder()
        .network_deny()
        .network_allow(["api.example.com:443"])
        .build();
    assert!(perms.network.allow.is_empty());
}

#[test]
fn intersection_is_commutative_for_names() {
    let a = Permissions::builder().exec_allow(["curl", "bash", "jq"]).env_allow(["LANG", "TZ"]).build();
    let b = Permissions::builder().exec_allow(["jq", "curl"]).env_allow(["TZ"]).build();
    let ab = a.intersect(&b);
    let ba = b.intersect(&a);
    assert_eq!(ab.exec_names, vec!["curl", "jq"]);
    assert_eq!(ba.exec_names, vec!["jq", "curl"]);
    assert_eq!(ab.env, vec!["TZ"]);
    assert_eq!(ba.env, vec!["TZ"]);
}

#[test]
fn self_intersection_keeps_names() {
    let a = Permissions::builder().exec_allow(["curl", "bash"]).env_allow(["LANG"]).build();
    let aa = a.intersect(&a);
    assert_eq!(aa.exec_names, vec!["curl", "bash"]);
    assert_eq!(aa.env, vec!["LANG"]);
}

#[test]
fn intersection_keeps_services_of_both() {
    let a = Permissions::builder()
        .service("reminders", ServicePermission { access: "read".to_string(), scope: StrMap::new() })
        .service("calendar", ServicePermission { access: "read".to_string(), scope: StrMap::new() })
        .build();
    let b = Permissions::builder()
        .service("calendar", ServicePermission { access: "readwrite".to_string(), scope: StrMap::new() })
        .build();
    let ab = a.intersect(&b);
    assert!(ab.services.contains_key("calendar"));
    assert!(!ab.services.contains_key("reminders"));
    assert_eq!(ab.services.get("calendar").unwrap().access, "read");
}

#[test]
fn intersection_of_disjoint_patterns_is_empty() {
    let r = intersect_patterns(&strings(&["/usr/**"]), &strings(&["/home/**"]));
    assert!(r.is_empty());
}

#[test]
fn intersection_patterns_are_sorted_and_unique() {
    let r = intersect_patterns(&strings(&["/tmp/**", "/etc/**", "/tmp/**"]), &strings(&["/tmp/**", "/etc/**"]));
    assert_eq!(r, vec!["/etc/**", "/tmp/**"]);
}

#[test]
fn specificity_counts_length_and_wildcards() {
    assert_eq!(specificity_score("api.example.com:443"), 19);
    assert_eq!(specificity_score("*.example.com:443"), 7);
    assert_eq!(specificity_score("**"), 0);
    assert_eq!(more_specific("*.example.com:443", "api.example.com:443"), "api.example.com:443");
    assert_eq!(more_specific("abc", "abd"), "abc");
}

#[test]
fn intersection_takes_the_narrower_access_level() {
    let a = Permissions::builder()
        .service("reminders", ServicePermission { access: "readwrite".to_string(), scope: StrMap::new() })
        .build();
    let b = Permissions::builder()
        .service("reminders", ServicePermission { access: "read".to_string(), scope: StrMap::new() })
        .build();
    assert_eq!(a.intersect(&b).services.get("reminders").unwrap().access, "read");
    assert_eq!(b.intersect(&a).services.get("reminders").unwrap().access, "read");
    let w = Permissions::builder()
        .service("clipboard", ServicePermission { access: "write".to_string(), scope: StrMap::new() })
        .build();
    let r = Permissions::builder()
        .service("clipboard", ServicePermission { access: "read".to_string(), scope: StrMap::new() })
        .build();
    assert_eq!(w.intersect(&r).services.get("clipboard").unwrap().access, "read");
    let s = Permissions::builder()
        .service("clipboard", ServicePermission { access: "send".to_string(), scope: StrMap::new() })
        .build();
    assert_eq!(s.intersect(&r).services.get("clipboard").unwrap().access, "none");
}

#[test]
fn intersection_keeps_the_narrower_pattern() {
    let a = Permissions::builder().fs_read(["[ab]"]).build();
    let b = Permissions::builder().fs_read(["a"]).build();
    assert_eq!(a.intersect(&b).fs.read, vec!["a"]);
    assert_eq!(b.intersect(&a).fs.read, vec!["a"]);
    let wide = Permissions::builder().fs_read(["/data/**"]).build();
    let narrow = Permissions::builder().fs_read(["/data/reports/*.csv"]).build();
    assert_eq!(wide.intersect(&narrow).fs.read, vec!["/data/reports/*.csv"]);
}

#[test]
fn self_intersection_sorts_and_is_idempotent() {
    let p = Permissions::builder()
        .fs_read(["/tmp/**", "/etc/**", "/tmp/**"])
        .fs_write(["/work/**"])
        .network_allow(["b.example.com:443", "a.example.com:443"])
        .exec_allow(["curl", "bash"])
        .env_allow(["LANG"])
        .build();
    let r = p.intersect(&p);
    assert_eq!(r.fs.read, vec!["/etc/**", "/tmp/**"]);
    assert_eq!(r.fs.write, vec!["/work/**"]);
    assert_eq!(r.network.allow, vec!["a.example.com:443", "b.example.com:443"]);
    assert_eq!(r.exec_names, vec!["curl", "bash"]);
    assert_eq!(r.env, vec!["LANG"]);
    let rr = r.intersect(&r);
    assert_eq!(rr.fs.read, r.fs.read);
    assert_eq!(rr.fs.write, r.fs.write);
    assert_eq!(rr.network.allow, r.network.allow);
    assert_eq!(rr.exec_names, r.exec_names);
    assert_eq!(rr.env, r.env);
}

#[test]
fn network_deny_holds_through_later_calls() {
    let perms = Permissions::builder()
        .fs_read(["/data/**"])
        .network_deny()
        .network_allow(["api.example.com:443"])
        .exec_allow(["curl"])
        .build();
    assert!(perms.network.allow.is_empty());
    assert_eq!(perms.fs.read, vec!["/data/**"]);
    assert_eq!(perms.exec_names, vec!["curl"]);
}
