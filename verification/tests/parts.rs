use grindd_core::config::GrinddConfig;
use grindd_core::daemon::{append_container_log, container_log_path, log_with_line, Daemon};
use grindd_core::error::GrinddError;
use grindd_core::host::{check_host_command, ensure_root_layout, DaemonConfig};
use grindd_core::image::{image_metadata_path, image_rootfs};
use grindd_core::inspect::build_explain_report;
use grindd_core::network::{default_network_plan, teardown_network};
use grindd_core::paths::join;
use grindd_core::rootfs::{after_op_failure, apply_rootfs, path_check, relative_bind_target, BindMount, OnFailure, RootfsOp, RootfsPlan};
use grindd_core::runtime::{check_process_spec, child_rootfs_plan, child_setup_steps, ChildStep, NamespaceSpec, ProcessSpec};
use grindd_core::storage::{mount_overlay, prepare_overlay_layout, unmount_overlay};
use grindd_core::text::{decimal_string, signed_decimal_string, split_words, trim_str};

#[test]
fn path_join_rules() {
    assert_eq!(join("/a", "b"), "/a/b");
    assert_eq!(join("/a/", "b"), "/a/b");
    assert_eq!(join("/a", "/b"), "/b");
    assert_eq!(join("", "b"), "b");
    assert_eq!(join("a", ""), "a/");
}

#[test]
fn config_defaults_and_load() {
    let d = GrinddConfig::default();
    assert_eq!(d.state_root, "/var/lib/grindd");
    assert_eq!(d.log_level, "info");
    assert_eq!(d.cgroup_root, "/sys/fs/cgroup");
    assert_eq!(d.bridge_name, "grindd0");
    let mine = GrinddConfig {
        state_root: "/tmp/g".to_string(),
        log_level: "debug".to_string(),
        cgroup_root: "/cg".to_string(),
        bridge_name: "br".to_string(),
    };
    assert_eq!(GrinddConfig::load(Some(mine)).state_root, "/tmp/g");
    assert_eq!(GrinddConfig::load(None).state_root, "/var/lib/grindd");
}

#[test]
fn daemon_paths() {
    let d = Daemon::new("/var/lib/grindd".to_string());
    assert_eq!(d.state_file(), "/var/lib/grindd/daemon-state.json");
    assert_eq!(d.socket_path(), "/var/lib/grindd/run/grindd.sock");
    assert_eq!(d.ensure_layout().len(), 4);
    assert_eq!(container_log_path("/s", "c1"), "/s/logs/c1.log");
}

#[test]
fn log_lines_accumulate() {
    let first = log_with_line("", "starting container process");
    let second = log_with_line(&first, "container exited with code 0");
    assert_eq!(second, "starting container process\ncontainer exited with code 0\n");
}

#[test]
fn numbers_in_decimal() {
    assert_eq!(decimal_string(0), "0");
    assert_eq!(decimal_string(9), "9");
    assert_eq!(decimal_string(10), "10");
    assert_eq!(decimal_string(100000), "100000");
    assert_eq!(signed_decimal_string(-1), "-1");
    assert_eq!(signed_decimal_string(i32::MIN), "-2147483648");
    assert_eq!(signed_decimal_string(i32::MAX), "2147483647");
}

#[test]
fn trimming_and_words() {
    assert_eq!(trim_str("  \t a b \r\n"), "a b");
    assert_eq!(trim_str("\u{a0}x\u{2003}"), "x");
    assert_eq!(trim_str("   "), "");
    assert_eq!(split_words(" a  b\tc "), vec!["a", "b", "c"]);
    assert!(split_words("   ").is_empty());
}

#[test]
fn error_texts() {
    assert_eq!(GrinddError::Build("x".to_string()).describe(), "build error: x");
    assert_eq!(GrinddError::Io("disk".to_string()).describe(), "io error: disk");
    assert_eq!(GrinddError::Unsupported("y".to_string()).describe(), "unsupported on this platform: y");
}

#[test]
fn host_runner() {
    let c = DaemonConfig::default();
    assert_eq!(c.root_dir, "/var/lib/grindd");
    assert_eq!(
        ensure_root_layout(&c),
        vec!["/var/lib/grindd/containers", "/var/lib/grindd/images", "/var/lib/grindd/runtime"]
    );
    assert!(check_host_command(&vec!["ls".to_string()]).is_ok());
    match check_host_command(&vec![]) {
        Err(grindd_core::host::GrinddError::InvalidCommand(m)) => assert_eq!(m, "run requires at least one argument"),
        _ => panic!("expected error"),
    }
}

#[test]
fn image_paths() {
    assert_eq!(image_rootfs("/s", "alpine"), "/s/images/alpine/rootfs");
    assert_eq!(image_metadata_path("/s", "alpine"), "/s/images/alpine/metadata.json");
}

#[test]
fn overlay_commands() {
    let l = prepare_overlay_layout("/s", "c", "/img");
    let m = mount_overlay(&l);
    assert_eq!(m.program, "mount");
    assert_eq!(
        m.args,
        vec![
            "-t",
            "overlay",
            "overlay",
            "-o",
            "lowerdir=/img,upperdir=/s/containers/c/overlay/upper,workdir=/s/containers/c/overlay/work",
            "/s/containers/c/overlay/merged"
        ]
    );
    match &m.on_failure {
        Some(GrinddError::Runtime(msg)) => assert_eq!(msg, "overlayfs mount failed"),
        other => panic!("unexpected failure report {other:?}"),
    }
    let u = unmount_overlay(&l);
    assert_eq!(u.program, "umount");
    assert_eq!(u.args, vec!["/s/containers/c/overlay/merged"]);
    match &u.on_failure {
        Some(GrinddError::Runtime(msg)) => assert_eq!(msg, "overlayfs unmount failed"),
        other => panic!("unexpected failure report {other:?}"),
    }
}

#[test]
fn network_teardown() {
    let cmds = teardown_network(&default_network_plan("x"));
    assert_eq!(cmds.len(), 2);
    assert_eq!(cmds[0].args, vec!["link", "del", "grindd0"]);
    assert_eq!(cmds[1].args, vec!["netns", "del", "ns-x"]);
    assert!(cmds[0].on_failure.is_none());
    assert!(cmds[1].on_failure.is_none());
}

#[test]
fn bind_targets_under_root() {
    assert_eq!(relative_bind_target("/data"), "data");
    assert_eq!(relative_bind_target("/a//b/"), "a//b");
    assert_eq!(relative_bind_target("//./a/./"), "a");
    assert_eq!(relative_bind_target("/"), "");
    assert_eq!(relative_bind_target("rel/x"), "rel/x");
}

fn describe(op: &RootfsOp) -> String {
    match op {
        RootfsOp::CreateDir(p) => format!("mkdir {p}"),
        RootfsOp::BindMount { source, destination, target } => format!("bind {source} {destination} {target}"),
        RootfsOp::RemountReadOnly { destination, target } => format!("ro {destination} {target}"),
        RootfsOp::BindRootToItself { root, old_root } => format!("self-bind {root} {old_root}"),
        RootfsOp::PivotRoot { root, old_root } => format!("pivot {root} {old_root}"),
        RootfsOp::Chroot(root) => format!("chroot {root}"),
        RootfsOp::ChdirRoot { after_pivot } => format!("chdir / {after_pivot}"),
        RootfsOp::DetachOldRoot(p) => format!("detach {p}"),
        RootfsOp::RemoveOldRoot(p) => format!("remove {p}"),
    }
}

fn stop_message(r: OnFailure) -> String {
    match r {
        OnFailure::Stop(GrinddError::Runtime(m)) => m,
        other => panic!("expected a runtime error, got {other:?}"),
    }
}

#[test]
fn rootfs_operations() {
    let plan = RootfsPlan {
        root: "/r".to_string(),
        use_pivot_root: true,
        bind_mounts: vec![
            BindMount { source: "/host/etc".to_string(), target: "/etc/app".to_string(), read_only: true },
            BindMount { source: "/h".to_string(), target: "x".to_string(), read_only: false },
        ],
    };
    let ops: Vec<String> = apply_rootfs(&plan).iter().map(describe).collect();
    assert_eq!(
        ops,
        vec![
            "mkdir /r/etc/app",
            "bind /host/etc /r/etc/app /etc/app",
            "ro /r/etc/app /etc/app",
            "mkdir /r/x",
            "bind /h /r/x x",
            "mkdir /r/.pivot_old",
            "self-bind /r /r/.pivot_old",
            "pivot /r /r/.pivot_old",
            "chdir / true",
            "detach /.pivot_old",
            "remove /.pivot_old",
        ]
    );
    let chroot = RootfsPlan { root: "/r".to_string(), use_pivot_root: false, bind_mounts: vec![] };
    let ops: Vec<String> = apply_rootfs(&chroot).iter().map(describe).collect();
    assert_eq!(ops, vec!["chroot /r", "chdir / false"]);
}

#[test]
fn rootfs_failures() {
    let plan = RootfsPlan {
        root: "/r".to_string(),
        use_pivot_root: true,
        bind_mounts: vec![BindMount { source: "/src".to_string(), target: "/data".to_string(), read_only: true }],
    };
    let ops = apply_rootfs(&plan);
    match after_op_failure(&ops[0], "denied".to_string()) {
        OnFailure::Stop(GrinddError::Io(m)) => assert_eq!(m, "denied"),
        other => panic!("{other:?}"),
    }
    assert_eq!(stop_message(after_op_failure(&ops[1], "busy".to_string())), "bind mount /src -> /data failed: busy");
    assert_eq!(stop_message(after_op_failure(&ops[2], "busy".to_string())), "read-only remount failed for /data: busy");
    assert_eq!(stop_message(after_op_failure(&ops[4], "x".to_string())), "bind mount before pivot_root failed: x");
    match after_op_failure(&ops[5], "EINVAL".to_string()) {
        OnFailure::Instead(alt) => {
            let alt: Vec<String> = alt.iter().map(describe).collect();
            assert_eq!(alt, vec!["chroot /r", "chdir / false"]);
        }
        other => panic!("{other:?}"),
    }
    assert_eq!(stop_message(after_op_failure(&ops[6], "e".to_string())), "chdir after pivot_root failed: e");
    assert_eq!(stop_message(after_op_failure(&ops[7], "e".to_string())), "umount old root failed: e");
    assert!(matches!(after_op_failure(&ops[8], "e".to_string()), OnFailure::Continue));
    assert_eq!(stop_message(after_op_failure(&RootfsOp::Chroot("/r".to_string()), "e".to_string())), "chroot failed: e");
    assert_eq!(
        stop_message(after_op_failure(&RootfsOp::ChdirRoot { after_pivot: false }, "e".to_string())),
        "chdir after chroot failed: e"
    );
}

#[test]
fn rootfs_path_checks() {
    let bind = |source: &str, destination: &str| RootfsOp::BindMount {
        source: source.to_string(),
        destination: destination.to_string(),
        target: "/t".to_string(),
    };
    assert!(path_check(&bind("/a", "/b")).is_none());
    match path_check(&bind("/a\0", "/b\0")) {
        Some(GrinddError::Runtime(m)) => assert_eq!(m, "invalid bind source path"),
        other => panic!("{other:?}"),
    }
    match path_check(&bind("/a", "/b\0")) {
        Some(GrinddError::Runtime(m)) => assert_eq!(m, "invalid bind target path"),
        other => panic!("{other:?}"),
    }
    let self_bind = RootfsOp::BindRootToItself { root: "/r".to_string(), old_root: "/r/\0".to_string() };
    match path_check(&self_bind) {
        Some(GrinddError::Runtime(m)) => assert_eq!(m, "invalid old root path for pivot_root"),
        other => panic!("{other:?}"),
    }
    let self_bind = RootfsOp::BindRootToItself { root: "\0".to_string(), old_root: "/r/\0".to_string() };
    match path_check(&self_bind) {
        Some(GrinddError::Runtime(m)) => assert_eq!(m, "invalid root path for pivot_root"),
        other => panic!("{other:?}"),
    }
    match path_check(&RootfsOp::Chroot("/r\0x".to_string())) {
        Some(GrinddError::Runtime(m)) => assert_eq!(m, "invalid rootfs path"),
        other => panic!("{other:?}"),
    }
    assert!(path_check(&RootfsOp::CreateDir("\0".to_string())).is_none());
}

#[test]
fn child_setup_order() {
    let ns = NamespaceSpec {
        pid: true,
        uts: false,
        mount: true,
        net: false,
        hostname: Some("box".to_string()),
        mount_proc: true,
    };
    let spec = ProcessSpec { argv: vec!["sh".to_string()], rootfs: Some("/m".to_string()), namespaces: ns };
    let steps = child_setup_steps(&spec);
    assert_eq!(steps.len(), 4);
    assert!(matches!(steps[0], ChildStep::Unshare { pid: true, uts: false, mount: true, net: false }));
    assert!(matches!(&steps[1], ChildStep::SetHostname(h) if h == "box"));
    match &steps[2] {
        ChildStep::EnterRootfs(p) => {
            assert_eq!(p.root, "/m");
            assert!(p.use_pivot_root);
            assert!(p.bind_mounts.is_empty());
        }
        other => panic!("{other:?}"),
    }
    assert!(matches!(steps[3], ChildStep::MountProc));

    let bare = ProcessSpec { argv: vec!["sh".to_string()], rootfs: None, namespaces: NamespaceSpec::default() };
    assert!(child_setup_steps(&bare).is_empty());

    let only_net = NamespaceSpec { net: true, ..NamespaceSpec::default() };
    let spec = ProcessSpec { argv: vec!["sh".to_string()], rootfs: None, namespaces: only_net };
    let steps = child_setup_steps(&spec);
    assert_eq!(steps.len(), 1);
    assert!(matches!(steps[0], ChildStep::Unshare { pid: false, uts: false, mount: false, net: true }));
}

#[test]
fn process_checks() {
    let spec = ProcessSpec { argv: vec![], rootfs: None, namespaces: NamespaceSpec::default() };
    match check_process_spec(&spec) {
        Err(GrinddError::Runtime(m)) => assert_eq!(m, "empty command"),
        _ => panic!(),
    }
    let spec = ProcessSpec { argv: vec!["ls".to_string()], rootfs: Some("/m".to_string()), namespaces: NamespaceSpec::default() };
    assert!(check_process_spec(&spec).is_ok());
    let p = child_rootfs_plan(&spec).unwrap();
    assert_eq!(p.root, "/m");
    assert!(p.use_pivot_root);
    assert!(p.bind_mounts.is_empty());
}

#[test]
fn explain_report_for_id() {
    let r = build_explain_report("x");
    assert_eq!(r.steps.len(), 5);
    assert_eq!(r.steps[0].subsystem, "runtime");
    assert_eq!(r.steps[0].detail, "PID/UTS/Mount namespace plan prepared");
}

#[test]
fn appending_to_a_container_log() {
    let (path, contents) = append_container_log("/s", "web", "old\n", "new");
    assert_eq!(path, "/s/logs/web.log");
    assert_eq!(contents, "old\nnew\n");
}

#[test]
fn daemon_echo_reply() {
    assert_eq!(grindd_core::daemon::echo_reply(b"ping"), r#"{"ok":true,"echo":"ping"}"#);
    assert_eq!(grindd_core::daemon::echo_reply(br#"{"a":"b"}"#), r#"{"ok":true,"echo":"{\"a\":\"b\"}"}"#);
    assert_eq!(grindd_core::daemon::echo_reply(&[0xff, 0x00]), r#"{"ok":true,"echo":"{}"}"#);
    assert_eq!(grindd_core::daemon::echo_reply(b""), r#"{"ok":true,"echo":""}"#);
}
