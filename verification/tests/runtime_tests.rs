use corral::cli::LinuxIsolationMode;
use corral::launch::{LinuxRuntime, MacOSRuntime, OsText};
use corral::manifest::{FsPermissions, Manifest, NetworkPermissions, Permissions};
use corral::reminders::{
    check_helper_response, create_adapter, helper_candidates, helper_exit_error, listed_reminders, returned_reminder, AddParams,
    HelperRequest, HelperResponse, IdParams, ListParams, PlatformRemindersAdapter, Reminder, RemindersAdapter,
    StubRemindersAdapter, UpdateParams,
};
use corral::strmap::StrMap;
use std::path::PathBuf;

fn manifest(network: bool) -> Manifest {
    Manifest {
        name: "shop".into(),
        version: "1.0.0".into(),
        description: "d".into(),
        author: "a".into(),
        entry: "run.sh".into(),
        runtime: "bash".into(),
        permissions: Permissions {
            fs: Some(FsPermissions { read: Some(vec!["$SKILL_DIR/**".into()]), write: None }),
            network: if network {
                Some(NetworkPermissions { allow: Some(vec!["api.example.com:443".into()]) })
            } else {
                None
            },
            services: None,
            exec_names: Some(vec!["curl".into()]),
            env: Some(vec!["LANG".into(), "MISSING".into()]),
        },
    }
}

fn text(a: &OsText) -> String {
    match a {
        OsText::Text(s) => s.clone(),
        OsText::Path(p) => p.to_string_lossy().to_string(),
    }
}

fn host_env() -> StrMap<String> {
    let mut env = StrMap::new();
    env.insert("LANG".to_string(), "C.UTF-8".to_string());
    env
}

fn runtime(network: bool, mode: LinuxIsolationMode) -> LinuxRuntime {
    LinuxRuntime::new(
        manifest(network),
        PathBuf::from("/skills/shop"),
        PathBuf::from("/tmp/corral-work-1"),
        PathBuf::from("/data/corral/skills/shop"),
        mode,
    )
}

#[test]
fn bwrap_plan_arguments() {
    let plan = runtime(false, LinuxIsolationMode::Bwrap).plan(&PathBuf::from("/run/b.sock"), &host_env(), None);
    assert_eq!(text(&plan.program), "bwrap");
    let args: Vec<String> = plan.args.iter().map(text).collect();
    assert_eq!(&args[0..3], &["--unshare-all", "--share-net", "--die-with-parent"]);
    assert_eq!(&args[24..27], &["--ro-bind", "/skills/shop", "/skill"]);
    assert_eq!(&args[46..49], &["--setenv", "SANDBOX_SOCKET", "/run/b.sock"]);
    assert_eq!(&args[49..], &["--setenv", "LANG", "C.UTF-8", "--unshare-net", "bash", "/skill/run.sh"]);
    assert!(plan.clear_env);
    let env: Vec<(String, String)> = plan.env.iter().map(|(k, v)| (k.clone(), text(v))).collect();
    assert_eq!(env, vec![("PATH".to_string(), "/usr/bin:/bin:/usr/sbin:/sbin".to_string())]);

    let plan = runtime(true, LinuxIsolationMode::Bwrap).plan(&PathBuf::from("/run/b.sock"), &host_env(), None);
    let args: Vec<String> = plan.args.iter().map(text).collect();
    assert_eq!(&args[49..], &["--setenv", "LANG", "C.UTF-8", "bash", "/skill/run.sh"]);
    assert!(plan.clear_env);
}

#[test]
fn bwrap_plan_without_granted_hosts_has_no_network() {
    for allow in [None, Some(vec![])] {
        let mut m = manifest(true);
        m.permissions.network = Some(NetworkPermissions { allow });
        let rt = LinuxRuntime::new(
            m,
            PathBuf::from("/skills/shop"),
            PathBuf::from("/tmp/corral-work-1"),
            PathBuf::from("/data/corral/skills/shop"),
            LinuxIsolationMode::Bwrap,
        );
        let plan = rt.plan(&PathBuf::from("/run/b.sock"), &host_env(), None);
        let args: Vec<String> = plan.args.iter().map(text).collect();
        assert_eq!(&args[49..], &["--setenv", "LANG", "C.UTF-8", "--unshare-net", "bash", "/skill/run.sh"]);
    }
}

#[test]
fn preload_plan_environment() {
    let plan = runtime(true, LinuxIsolationMode::Preload).plan(
        &PathBuf::from("/run/b.sock"),
        &host_env(),
        Some(PathBuf::from("/opt/libsandbox.so")),
    );
    assert_eq!(text(&plan.program), "bash");
    let args: Vec<String> = plan.args.iter().map(text).collect();
    assert_eq!(args, vec!["/skills/shop/run.sh"]);
    assert_eq!(plan.current_dir, Some(PathBuf::from("/tmp/corral-work-1")));
    assert!(plan.clear_env);
    assert!(plan.new_process_group);
    let env: Vec<(String, String)> = plan.env.iter().map(|(k, v)| (k.clone(), text(v))).collect();
    assert_eq!(env[0], ("SKILL_DIR".to_string(), "/skills/shop".to_string()));
    assert_eq!(env[3], ("SANDBOX_SOCKET".to_string(), "/run/b.sock".to_string()));
    assert_eq!(env[4], ("LANG".to_string(), "C.UTF-8".to_string()));
    assert_eq!(env[5], ("PATH".to_string(), "/usr/bin:/bin:/usr/sbin:/sbin".to_string()));
    assert_eq!(env[6], ("LD_PRELOAD".to_string(), "/opt/libsandbox.so".to_string()));
    assert_eq!(
        env[7],
        (
            "SANDBOX_POLICY".to_string(),
            "{\"exec\":[\"curl\"],\"fs\":{\"read\":[\"$SKILL_DIR/**\"],\"write\":[]},\"network\":{\"allow\":[\"api.example.com:443\"]}}"
                .to_string()
        )
    );
    assert_eq!(env.len(), 8);
}

#[test]
fn macos_plan_environment() {
    let rt = MacOSRuntime::new(
        manifest(false),
        PathBuf::from("/skills/shop"),
        PathBuf::from("/tmp/w"),
        PathBuf::from("/d"),
    );
    let plan = rt.plan(None, &host_env(), Some((PathBuf::from("/opt/l.dylib"), PathBuf::from("/tmp/p.json"))));
    let env: Vec<(String, String)> = plan.env.iter().map(|(k, v)| (k.clone(), text(v))).collect();
    let names: Vec<&str> = env.iter().map(|(k, _)| k.as_str()).collect();
    assert_eq!(
        names,
        vec![
            "SKILL_DIR",
            "WORK_DIR",
            "DATA_DIR",
            "LANG",
            "PATH",
            "DYLD_INSERT_LIBRARIES",
            "DYLD_FORCE_FLAT_NAMESPACE",
            "SANDBOX_POLICY_FILE"
        ]
    );
    assert_eq!(
        MacOSRuntime::serialize_policy(&manifest(false)),
        "{\"exec\":[\"curl\"],\"fs\":{\"read\":[\"$SKILL_DIR/**\"],\"write\":[]},\"network\":{\"allow\":[]}}"
    );
}

fn reminder(id: &str) -> Reminder {
    Reminder {
        id: id.into(),
        title: "t".into(),
        list: "Shopping".into(),
        completed: false,
        due_date: None,
        priority: 0,
        notes: None,
        creation_date: None,
    }
}

#[test]
fn stub_adapter_refuses() {
    let stub = StubRemindersAdapter;
    assert!(!stub.is_available());
    let msg = "Reminders service not available on this platform";
    assert_eq!(stub.list(ListParams { list: None, completed: None }).unwrap_err(), msg);
    assert_eq!(stub.complete(IdParams { id: "1".into() }).unwrap_err(), msg);
    assert_eq!(stub.delete(IdParams { id: "1".into() }).unwrap_err(), msg);
    assert!(matches!(create_adapter(false, PathBuf::from("x")), PlatformRemindersAdapter::Stub(_)));
    match create_adapter(true, PathBuf::from("/bin/reminders-helper")) {
        PlatformRemindersAdapter::MacOS(a) => assert_eq!(a.helper_path(), &PathBuf::from("/bin/reminders-helper")),
        other => panic!("unexpected {:?}", other),
    }
}

#[test]
fn helper_protocol() {
    let r = HelperRequest::for_add(AddParams {
        list: "Shopping".into(),
        title: "milk".into(),
        due_date: None,
        notes: Some("2l".into()),
        priority: Some(1),
    });
    assert_eq!(r.action, "add");
    assert_eq!(r.list.as_deref(), Some("Shopping"));
    assert_eq!(r.title.as_deref(), Some("milk"));
    let r = HelperRequest::for_update(UpdateParams {
        id: "7".into(),
        title: None,
        due_date: Some("2024-01-01".into()),
        notes: None,
        priority: None,
    });
    assert_eq!((r.action.as_str(), r.id.as_deref()), ("update", Some("7")));
    let r = HelperRequest::for_list(ListParams { list: Some("Work".into()), completed: Some(false) });
    assert_eq!((r.action.as_str(), r.completed), ("list", Some(false)));

    let failed = HelperResponse { reminders: None, error: Some("denied".into()), success: None };
    assert_eq!(check_helper_response(failed).unwrap_err(), "Helper returned error: denied");
    let two = HelperResponse { reminders: Some(vec![reminder("1"), reminder("2")]), error: None, success: Some(true) };
    let two = check_helper_response(two).unwrap();
    assert_eq!(returned_reminder(two).unwrap().id, "2");
    let none = HelperResponse { reminders: Some(vec![]), error: None, success: None };
    assert_eq!(returned_reminder(none).unwrap_err(), "No reminder returned from helper");
    let empty = HelperResponse { reminders: None, error: None, success: None };
    assert!(listed_reminders(empty).is_empty());
    assert_eq!(
        helper_exit_error(Some(2), Some("  oops\n")),
        "Helper process exited with status 2: oops"
    );
    assert_eq!(helper_exit_error(None, None), "Helper process exited with status -1: Unknown error");
}

#[test]
fn helper_is_looked_for_in_order() {
    let dir = PathBuf::from("/opt/corral/bin");
    let parent = PathBuf::from("/opt/corral");
    let all = helper_candidates(Some("/usr/local/bin/rh"), Some(&dir), Some(&parent));
    assert_eq!(
        all,
        vec![
            PathBuf::from("/usr/local/bin/rh"),
            PathBuf::from("/opt/corral/bin/reminders-helper"),
            PathBuf::from("/opt/corral/bin/helpers/reminders-helper"),
            PathBuf::from("/opt/corral/helpers/reminders-helper-macos/reminders-helper"),
            PathBuf::from("reminders-helper"),
        ]
    );
    assert_eq!(helper_candidates(None, None, None), vec![PathBuf::from("reminders-helper")]);
}
