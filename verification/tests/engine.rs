use grindd_core::cgroups::{next_write, CgroupLimits, WriteOutcome};
use grindd_core::command::{first_step, next_command, CommandOutcome, SequenceStep};
use grindd_core::daemon::{ContainerRecord, DaemonState};
use grindd_core::engine::{Engine, RunAction, RunEvent, RunRequest, RunStage};
use grindd_core::error::GrinddError;
use grindd_core::image::ImageMetadata;

fn record(id: &str, state: &str) -> ContainerRecord {
    ContainerRecord {
        id: id.to_string(),
        image: "alpine".to_string(),
        command: vec!["sh".to_string()],
        pid: None,
        state: state.to_string(),
    }
}

fn registry(ids: &[&str]) -> DaemonState {
    let mut s = DaemonState::default();
    for id in ids {
        s.containers.insert(id.to_string(), record(id, "exited"));
    }
    s
}

fn request(command: Vec<&str>) -> RunRequest {
    RunRequest {
        id: "demo".to_string(),
        image: "alpine".to_string(),
        command: command.into_iter().map(|s| s.to_string()).collect(),
        memory_max: None,
        cpu_quota: None,
    }
}

#[test]
fn new_engine_paths() {
    let engine = Engine::new("/var/lib/grindd".to_string());
    assert_eq!(engine.cgroups.root, "/sys/fs/cgroup");
    assert_eq!(
        engine.bootstrap(),
        vec!["/var/lib/grindd/containers", "/var/lib/grindd/images", "/var/lib/grindd/logs", "/var/lib/grindd/run"]
    );
    assert_eq!(engine.container_log_path("demo"), "/var/lib/grindd/logs/demo.log");
}

#[test]
fn run_container_whole_flow() {
    let engine = Engine::new("/srv/g".to_string());
    let req = request(vec!["echo", "hello"]);
    let (stage, action) = engine.run_container(&req, RunStage::Start, RunEvent::Begin);
    match &action {
        RunAction::LoadImageMetadata { store_root, image } => {
            assert_eq!(store_root, "/srv/g");
            assert_eq!(image, "alpine");
        }
        _ => panic!("expected LoadImageMetadata"),
    }
    let meta = ImageMetadata {
        name: "alpine".to_string(),
        digest: "d".to_string(),
        source_tar: "/tmp/a.tar".to_string(),
        extracted_root: "/srv/g/images/alpine/rootfs".to_string(),
    };
    let (stage, action) = engine.run_container(&req, stage, RunEvent::ImageLoaded(meta));
    match &action {
        RunAction::PrepareOverlay(l) => {
            assert_eq!(l.lowerdir, "/srv/g/images/alpine/rootfs");
            assert_eq!(l.upperdir, "/srv/g/containers/demo/overlay/upper");
            assert_eq!(l.workdir, "/srv/g/containers/demo/overlay/work");
            assert_eq!(l.merged, "/srv/g/containers/demo/overlay/merged");
        }
        _ => panic!("expected PrepareOverlay"),
    }
    let (stage, action) = engine.run_container(&req, stage, RunEvent::Done);
    assert!(matches!(action, RunAction::MountOverlay(_)));
    let (stage, action) = engine.run_container(&req, stage, RunEvent::Done);
    assert!(matches!(action, RunAction::LoadState));
    let (stage, action) = engine.run_container(&req, stage, RunEvent::StateLoaded(registry(&["other"])));
    match &action {
        RunAction::SaveState(s) => {
            assert_eq!(s.containers.len(), 2);
            let r = s.containers.get("demo").unwrap();
            assert_eq!(r.state, "created");
            assert_eq!(r.command, vec!["echo", "hello"]);
            assert_eq!(r.pid, None);
            assert_eq!(s.containers.get("other").unwrap().state, "exited");
        }
        _ => panic!("expected SaveState"),
    }
    let (stage, action) = engine.run_container(&req, stage, RunEvent::Done);
    match &action {
        RunAction::AppendLog { path, line } => {
            assert_eq!(path, "/srv/g/logs/demo.log");
            assert_eq!(line, "starting container process");
        }
        _ => panic!("expected AppendLog"),
    }
    let (stage, action) = engine.run_container(&req, stage, RunEvent::Done);
    match &action {
        RunAction::SpawnProcess(spec) => {
            assert_eq!(spec.argv, vec!["echo", "hello"]);
            assert_eq!(spec.rootfs.as_deref(), Some("/srv/g/containers/demo/overlay/merged"));
            assert!(spec.namespaces.pid && spec.namespaces.uts && spec.namespaces.mount);
            assert!(!spec.namespaces.net);
            assert!(spec.namespaces.mount_proc);
            assert_eq!(spec.namespaces.hostname.as_deref(), Some("grindd-demo"));
        }
        _ => panic!("expected SpawnProcess"),
    }
    let (stage, action) = engine.run_container(&req, stage, RunEvent::Spawned(77));
    assert!(matches!(action, RunAction::WaitProcess(77)));
    let (stage, action) = engine.run_container(&req, stage, RunEvent::Exited(-3));
    match &action {
        RunAction::SaveState(s) => {
            assert_eq!(s.containers.get("demo").unwrap().state, "exited");
            assert_eq!(s.containers.len(), 2);
        }
        _ => panic!("expected SaveState"),
    }
    let (stage, action) = engine.run_container(&req, stage, RunEvent::Done);
    match &action {
        RunAction::AppendLog { line, .. } => assert_eq!(line, "container exited with code -3"),
        _ => panic!("expected AppendLog"),
    }
    let (stage, action) = engine.run_container(&req, stage, RunEvent::Done);
    assert!(matches!(stage, RunStage::Finished));
    assert!(matches!(action, RunAction::Finish(Ok(-3))));
}

#[test]
fn run_container_failure_ends_run() {
    let engine = Engine::new("/srv/g".to_string());
    let req = request(vec!["true"]);
    let (stage, _) = engine.run_container(&req, RunStage::Start, RunEvent::Begin);
    let (stage, action) =
        engine.run_container(&req, stage, RunEvent::Failed(GrinddError::Image("parse metadata failed: x".to_string())));
    assert!(matches!(stage, RunStage::Finished));
    match action {
        RunAction::Finish(Err(GrinddError::Image(m))) => assert_eq!(m, "parse metadata failed: x"),
        _ => panic!("expected the failure"),
    }
}

#[test]
fn run_container_empty_command() {
    let engine = Engine::new("/srv/g".to_string());
    let req = request(vec![]);
    let mut stage = RunStage::Start;
    let mut event = RunEvent::Begin;
    let mut saved = 0;
    loop {
        let (next, action) = engine.run_container(&req, stage, event);
        stage = next;
        event = match action {
            RunAction::LoadImageMetadata { .. } => RunEvent::ImageLoaded(ImageMetadata {
                name: "alpine".to_string(),
                digest: String::new(),
                source_tar: String::new(),
                extracted_root: "/r".to_string(),
            }),
            RunAction::LoadState => RunEvent::StateLoaded(DaemonState::default()),
            RunAction::SaveState(_) => {
                saved += 1;
                RunEvent::Done
            }
            RunAction::Finish(r) => {
                match r {
                    Err(GrinddError::Runtime(m)) => assert_eq!(m, "empty command"),
                    _ => panic!("expected the empty command error"),
                }
                break;
            }
            RunAction::SpawnProcess(_) => panic!("must not start"),
            _ => RunEvent::Done,
        };
    }
    assert_eq!(saved, 1);
}

#[test]
fn inspect_list_remove() {
    let engine = Engine::new("/srv/g".to_string());
    let mut state = registry(&["a", "b", "c"]);
    let listed = engine.list_containers(&state);
    let mut ids: Vec<String> = listed.iter().map(|r| r.id.clone()).collect();
    ids.sort();
    assert_eq!(ids, vec!["a", "b", "c"]);
    assert_eq!(engine.inspect(&state, "b").unwrap().id, "b");
    engine.remove_container(&mut state, "b");
    match engine.inspect(&state, "b") {
        Err(GrinddError::Daemon(m)) => assert_eq!(m, "container b not found"),
        _ => panic!("expected not found"),
    }
    assert_eq!(engine.inspect(&state, "c").unwrap().id, "c");
    assert_eq!(engine.list_containers(&state).len(), 2);
    engine.remove_container(&mut state, "zzz");
    assert_eq!(engine.list_containers(&state).len(), 2);
}

#[test]
fn container_logs_need_a_log() {
    let engine = Engine::new("/srv/g".to_string());
    assert_eq!(engine.container_logs("x", Some("line\n".to_string())).unwrap(), "line\n");
    match engine.container_logs("x", None) {
        Err(GrinddError::Daemon(m)) => assert_eq!(m, "no logs for container x"),
        _ => panic!("expected error"),
    }
}

#[test]
fn limits_plan() {
    let engine = Engine::new("/srv/g".to_string());
    let plan = engine.apply_limits("demo", 4242, Some(134217728), Some(50000));
    assert_eq!(plan.group, "/sys/fs/cgroup/grindd/demo");
    let writes: Vec<(String, String, String)> =
        plan.writes.iter().map(|w| (w.path.clone(), w.contents.clone(), w.failure.clone())).collect();
    assert_eq!(
        writes,
        vec![
            ("/sys/fs/cgroup/grindd/demo/memory.max".to_string(), "134217728".to_string(), "write memory.max failed".to_string()),
            ("/sys/fs/cgroup/grindd/demo/cpu.max".to_string(), "50000 100000".to_string(), "write cpu.max failed".to_string()),
            ("/sys/fs/cgroup/grindd/demo/cgroup.procs".to_string(), "4242".to_string(), "attach pid failed".to_string()),
        ]
    );
    let bare = engine.apply_limits("x", 0, None, None);
    assert_eq!(bare.writes.len(), 1);
    assert_eq!(bare.writes[0].contents, "0");
}

#[test]
fn cgroup_period_default_and_given() {
    let engine = Engine::new("/srv/g".to_string());
    let limits = CgroupLimits { memory_max: None, cpu_max_quota: Some(7), cpu_max_period: None };
    let w = engine.cgroups.apply_limits("/cg", &limits);
    assert_eq!(w.len(), 1);
    assert_eq!(w[0].contents, "7 100000");
    let limits = CgroupLimits { memory_max: Some(u64::MAX), cpu_max_quota: Some(1), cpu_max_period: Some(250) };
    let w = engine.cgroups.apply_limits("/cg", &limits);
    assert_eq!(w[0].contents, "18446744073709551615");
    assert_eq!(w[1].contents, "1 250");
    assert!(engine.cgroups.apply_limits("/cg", &CgroupLimits::default()).is_empty());
}

#[test]
fn default_network_commands() {
    let engine = Engine::new("/srv/g".to_string());
    let cmds = engine.setup_default_network("web");
    assert_eq!(cmds.len(), 11);
    assert_eq!(cmds[0].program, "ip");
    assert_eq!(cmds[0].args, vec!["link", "add", "grindd0", "type", "bridge"]);
    assert_eq!(cmds[1].args, vec!["addr", "add", "10.0.0.1/24", "dev", "grindd0"]);
    assert_eq!(cmds[3].args, vec!["link", "add", "vethh-web", "type", "veth", "peer", "name", "vethc-web"]);
    assert_eq!(cmds[6].args, vec!["link", "set", "vethc-web", "netns", "ns-web"]);
    assert_eq!(cmds[9].args, vec!["netns", "exec", "ns-web", "ip", "addr", "add", "10.0.0.2/24", "dev", "vethc-web"]);
    assert_eq!(network_message(&cmds[0].on_failure), r#"ip command failed: ["link", "add", "grindd0", "type", "bridge"]"#);
    assert_eq!(
        network_message(&cmds[9].on_failure),
        r#"ip netns exec failed: ["ip", "addr", "add", "10.0.0.2/24", "dev", "vethc-web"]"#
    );
    assert_eq!(cmds[10].program, "sh");
    assert_eq!(cmds[10].args[0], "-c");
    assert_eq!(network_message(&cmds[10].on_failure), "failed to configure NAT");
}

fn network_message(e: &Option<GrinddError>) -> String {
    match e {
        Some(GrinddError::Network(m)) => m.clone(),
        other => panic!("expected a network error, got {other:?}"),
    }
}

fn finished_with(step: SequenceStep) -> Result<(), GrinddError> {
    match step {
        SequenceStep::Finish(r) => r,
        other => panic!("expected the end, got {other:?}"),
    }
}

#[test]
fn network_setup_stops_at_first_failure() {
    let engine = Engine::new("/srv/g".to_string());
    let cmds = engine.setup_default_network("web");
    assert!(matches!(first_step(cmds.len()), SequenceStep::Perform(0)));
    assert!(matches!(first_step(0), SequenceStep::Finish(Ok(()))));
    assert!(matches!(next_command(&cmds, 0, CommandOutcome::Succeeded), SequenceStep::Perform(1)));
    match finished_with(next_command(&cmds, 2, CommandOutcome::Failed)) {
        Err(GrinddError::Network(m)) => assert_eq!(m, r#"ip command failed: ["link", "set", "grindd0", "up"]"#),
        other => panic!("{other:?}"),
    }
    match finished_with(next_command(&cmds, 7, CommandOutcome::Failed)) {
        Err(GrinddError::Network(m)) => assert_eq!(m, r#"ip netns exec failed: ["ip", "link", "set", "lo", "up"]"#),
        other => panic!("{other:?}"),
    }
    match finished_with(next_command(&cmds, 10, CommandOutcome::Failed)) {
        Err(GrinddError::Network(m)) => assert_eq!(m, "failed to configure NAT"),
        other => panic!("{other:?}"),
    }
    match finished_with(next_command(&cmds, 4, CommandOutcome::NotRun(GrinddError::Io("no ip".to_string())))) {
        Err(GrinddError::Io(m)) => assert_eq!(m, "no ip"),
        other => panic!("{other:?}"),
    }
    assert!(finished_with(next_command(&cmds, 10, CommandOutcome::Succeeded)).is_ok());
}

#[test]
fn network_teardown_ignores_failures() {
    let cmds = grindd_core::network::teardown_network(&grindd_core::network::default_network_plan("web"));
    assert!(matches!(next_command(&cmds, 0, CommandOutcome::Failed), SequenceStep::Perform(1)));
    let gone = CommandOutcome::NotRun(GrinddError::Io("no ip".to_string()));
    assert!(finished_with(next_command(&cmds, 1, gone)).is_ok());
}

#[test]
fn overlay_mount_failure() {
    let layout = grindd_core::storage::prepare_overlay_layout("/s", "c", "/img");
    let cmds = vec![grindd_core::storage::mount_overlay(&layout)];
    match finished_with(next_command(&cmds, 0, CommandOutcome::Failed)) {
        Err(GrinddError::Runtime(m)) => assert_eq!(m, "overlayfs mount failed"),
        other => panic!("{other:?}"),
    }
    let cmds = vec![grindd_core::storage::unmount_overlay(&layout)];
    match finished_with(next_command(&cmds, 0, CommandOutcome::Failed)) {
        Err(GrinddError::Runtime(m)) => assert_eq!(m, "overlayfs unmount failed"),
        other => panic!("{other:?}"),
    }
}

#[test]
fn limit_writes_stop_at_first_failure() {
    let engine = Engine::new("/srv/g".to_string());
    let plan = engine.apply_limits("demo", 4242, Some(134217728), Some(50000));
    assert!(matches!(next_write(&plan.writes, 0, WriteOutcome::Written), SequenceStep::Perform(1)));
    match finished_with(next_write(&plan.writes, 1, WriteOutcome::Failed("permission denied".to_string()))) {
        Err(GrinddError::Cgroup(m)) => assert_eq!(m, "write cpu.max failed: permission denied"),
        other => panic!("{other:?}"),
    }
    match finished_with(next_write(&plan.writes, 2, WriteOutcome::Failed("no such process".to_string()))) {
        Err(GrinddError::Cgroup(m)) => assert_eq!(m, "attach pid failed: no such process"),
        other => panic!("{other:?}"),
    }
    assert!(finished_with(next_write(&plan.writes, 2, WriteOutcome::Written)).is_ok());
}

#[test]
fn explain_report() {
    let engine = Engine::new("/srv/g".to_string());
    let r = engine.explain("demo");
    assert_eq!(r.container_id, "demo");
    let phases: Vec<u8> = r.steps.iter().map(|s| s.phase).collect();
    assert_eq!(phases, vec![2, 3, 5, 7, 9]);
    assert_eq!(r.steps[4].subsystem, "network");
    assert_eq!(r.steps[3].detail, "overlayfs lower/upper/work/merged directories configured");
}

#[test]
fn build_from_file_job() {
    let engine = Engine::new("/srv/g".to_string());
    let job = engine.build_from_file("/ctx", "FROM a\nCOPY app /app\nCOPY /abs/x /x\n").unwrap();
    assert_eq!(job.plan.instructions.len(), 3);
    assert_eq!(job.cache_path, "/srv/g/build-cache.json");
    assert_eq!(job.copy_sources, vec![None, Some("/ctx/app".to_string()), Some("/abs/x".to_string())]);
    match engine.build_from_file("/ctx", "COPY a") {
        Err(GrinddError::Build(m)) => assert_eq!(m, "invalid COPY line: COPY a"),
        _ => panic!("expected error"),
    }
}

#[test]
fn load_image_metadata() {
    let engine = Engine::new("/srv/g".to_string());
    let m = engine.load_image("alpine", "/tmp/alpine.tar", b"abc");
    assert_eq!(m.name, "alpine");
    assert_eq!(m.source_tar, "/tmp/alpine.tar");
    assert_eq!(m.extracted_root, "/srv/g/images/alpine/rootfs");
    assert_eq!(m.digest, "ba7816bf8f01cfea414140de5dae2223b00361a396177a9cb410ff61f20015ad");
    assert_eq!(m.digest.len(), 64);
}

#[test]
fn stages_accept_only_matching_events() {
    assert!(RunStage::Start.accepts(&RunEvent::Begin));
    assert!(!RunStage::Start.accepts(&RunEvent::Done));
    assert!(!RunStage::Finished.accepts(&RunEvent::Done));
    assert!(RunStage::LoadingImage.accepts(&RunEvent::Failed(GrinddError::Io("x".to_string()))));
    assert!(!RunStage::LoadingImage.accepts(&RunEvent::Done));
    assert!(RunStage::SavingExited { code: 0 }.accepts(&RunEvent::Done));
    assert!(!RunStage::SavingExited { code: 0 }.accepts(&RunEvent::Exited(1)));
}

#[test]
fn run_container_applies_limits() {
    let engine = Engine::new("/srv/g".to_string());
    let mut req = request(vec!["sleep", "1"]);
    req.memory_max = Some(134217728);
    req.cpu_quota = Some(50000);
    let mut stage = RunStage::Start;
    let mut event = RunEvent::Begin;
    let mut seen_limits = false;
    let mut waited = false;
    loop {
        assert!(stage.accepts(&event));
        let (next, action) = engine.run_container(&req, stage, event);
        stage = next;
        event = match action {
            RunAction::LoadImageMetadata { .. } => RunEvent::ImageLoaded(ImageMetadata {
                name: "alpine".to_string(),
                digest: String::new(),
                source_tar: String::new(),
                extracted_root: "/r".to_string(),
            }),
            RunAction::LoadState => RunEvent::StateLoaded(DaemonState::default()),
            RunAction::SpawnProcess(_) => RunEvent::Spawned(4242),
            RunAction::ApplyLimits(plan) => {
                assert!(!waited);
                assert_eq!(plan.group, "/sys/fs/cgroup/grindd/demo");
                let writes: Vec<(String, String)> =
                    plan.writes.iter().map(|w| (w.path.clone(), w.contents.clone())).collect();
                assert_eq!(
                    writes,
                    vec![
                        ("/sys/fs/cgroup/grindd/demo/memory.max".to_string(), "134217728".to_string()),
                        ("/sys/fs/cgroup/grindd/demo/cpu.max".to_string(), "50000 100000".to_string()),
                        ("/sys/fs/cgroup/grindd/demo/cgroup.procs".to_string(), "4242".to_string()),
                    ]
                );
                seen_limits = true;
                RunEvent::Done
            }
            RunAction::WaitProcess(pid) => {
                assert!(seen_limits);
                assert_eq!(pid, 4242);
                waited = true;
                RunEvent::Exited(0)
            }
            RunAction::Finish(r) => {
                assert!(matches!(r, Ok(0)));
                break;
            }
            _ => RunEvent::Done,
        };
    }
    assert!(seen_limits && waited);
}

#[test]
fn run_container_memory_limit_only() {
    let engine = Engine::new("/srv/g".to_string());
    let mut req = request(vec!["true"]);
    req.memory_max = Some(1024);
    let mut stage = RunStage::Start;
    let mut event = RunEvent::Begin;
    loop {
        let (next, action) = engine.run_container(&req, stage, event);
        stage = next;
        event = match action {
            RunAction::LoadImageMetadata { .. } => RunEvent::ImageLoaded(ImageMetadata {
                name: "alpine".to_string(),
                digest: String::new(),
                source_tar: String::new(),
                extracted_root: "/r".to_string(),
            }),
            RunAction::LoadState => RunEvent::StateLoaded(DaemonState::default()),
            RunAction::SpawnProcess(_) => RunEvent::Spawned(9),
            RunAction::ApplyLimits(plan) => {
                assert_eq!(plan.writes.len(), 2);
                assert_eq!(plan.writes[0].contents, "1024");
                assert_eq!(plan.writes[1].path, "/sys/fs/cgroup/grindd/demo/cgroup.procs");
                RunEvent::Done
            }
            RunAction::WaitProcess(_) => RunEvent::Exited(0),
            RunAction::Finish(_) => break,
            _ => RunEvent::Done,
        };
    }
}
