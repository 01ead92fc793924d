//! The engine: the operations of the command line, each given the values its
//! caller reads from disk, and returning what its caller writes or runs. Running
//! a container alternates outside work and decisions; `Engine::run_container`
//! takes one decision at a time.

use vstd::prelude::*;
use vstd::string::*;

use crate::buildsys::{
    default_cache_path, parse_build_file, parse_build_text, BuildInstruction, BuildPlan,
    InstructionView,
};
use crate::cgroups::{
    limit_writes, pid_write, write_stops, write_views, CgroupLimits, CgroupV2Manager, CgroupWrite,
    WriteOutcomeView, WriteView,
};
use crate::command::{command_views, law_last_item_only_after_all_before, run_sequence, HostCommand};
use crate::daemon::{
    container_log_path, log_path, ContainerRecord, Daemon, DaemonState, RecordView,
};
use crate::error::{ErrorView, GrinddError};
use crate::image::{describe_image, image_dir, ImageMetadata, MetadataView};
use crate::inspect::{build_explain_report, lifecycle_steps, step_views, ExplainReport};
use crate::keyed::{entries_map, entry_keys, keys_unique, lemma_entries_map_at, lemma_entries_map_dom};
use crate::network::{default_network_plan, default_plan, setup_commands, setup_network};
use crate::paths::{join, path_join};
use crate::runtime::{check_process_spec, NamespaceSpec, NamespaceView, ProcessSpec, ProcessView};
use crate::digest::content_digest_text;
use crate::storage::{overlay_layout, prepare_overlay_layout, LayoutView, OverlayLayout};
use crate::text::{clone_strings, concat, decimal, signed_decimal, signed_decimal_string, views};

verus! {

/// A request to run a container.
#[derive(Debug, Clone)]
pub struct RunRequest {
    pub id: String,
    pub image: String,
    pub command: Vec<String>,
    pub memory_max: Option<u64>,
    pub cpu_quota: Option<u64>,
}

/// The model of a `RunRequest`.
pub struct RequestView {
    pub id: Seq<char>,
    pub image: Seq<char>,
    pub command: Seq<Seq<char>>,
    pub memory_max: Option<u64>,
    pub cpu_quota: Option<u64>,
}

impl View for RunRequest {
    type V = RequestView;

    open spec fn view(&self) -> RequestView {
        RequestView {
            id: self.id@,
            image: self.image@,
            command: views(self.command@),
            memory_max: self.memory_max,
            cpu_quota: self.cpu_quota,
        }
    }
}

/// The engine: the daemon that keeps its state, and the cgroup hierarchy.
pub struct Engine {
    pub daemon: Daemon,
    pub cgroups: CgroupV2Manager,
}

/// Where a run has got to.
pub enum RunStage {
    Start,
    LoadingImage,
    PreparingOverlay { layout: OverlayLayout },
    Mounting { layout: OverlayLayout },
    LoadingState { layout: OverlayLayout },
    SavingCreated { state: DaemonState, layout: OverlayLayout },
    LoggingStart { state: DaemonState, layout: OverlayLayout },
    Spawning { state: DaemonState },
    Limiting { state: DaemonState, pid: u32 },
    Running { state: DaemonState },
    SavingExited { code: i32 },
    LoggingExit { code: i32 },
    Finished,
}

/// What the caller reports after doing the last action.
pub enum RunEvent {
    /// The run begins.
    Begin,
    /// The image's metadata was read.
    ImageLoaded(ImageMetadata),
    /// The action succeeded.
    Done,
    /// The registry was read.
    StateLoaded(DaemonState),
    /// The container process was started with this pid.
    Spawned(u32),
    /// The container process exited with this code.
    Exited(i32),
    /// The action failed.
    Failed(GrinddError),
}

/// What the caller does next.
pub enum RunAction {
    /// Read the metadata of `image` from the store at `store_root`.
    LoadImageMetadata { store_root: String, image: String },
    /// Create the upper, work and merged directories of the overlay.
    PrepareOverlay(OverlayLayout),
    /// Mount the overlay (on Linux; elsewhere report `Done` at once).
    MountOverlay(OverlayLayout),
    /// Read the registry.
    LoadState,
    /// Save this registry.
    SaveState(DaemonState),
    /// Append `line` to the log at `path`.
    AppendLog { path: String, line: String },
    /// Start this process (without waiting for it).
    SpawnProcess(ProcessSpec),
    /// Create the cgroup `group` (a failure is an I/O error) and perform
    /// `writes` in order with `first_step` and `next_write`, which stop at the
    /// first failed write with a cgroup error; the writes limit the container
    /// and move its process into the group.
    ApplyLimits(LimitsPlan),
    /// Wait for the process with this pid to exit.
    WaitProcess(u32),
    /// The run is over, with this outcome.
    Finish(Result<i32, GrinddError>),
}

/// The model of a `RunStage`.
pub enum StageView {
    Start,
    LoadingImage,
    PreparingOverlay { layout: LayoutView },
    Mounting { layout: LayoutView },
    LoadingState { layout: LayoutView },
    SavingCreated { state: Map<Seq<char>, RecordView>, layout: LayoutView },
    LoggingStart { state: Map<Seq<char>, RecordView>, layout: LayoutView },
    Spawning { state: Map<Seq<char>, RecordView> },
    Limiting { state: Map<Seq<char>, RecordView>, pid: u32 },
    Running { state: Map<Seq<char>, RecordView> },
    SavingExited { code: i32 },
    LoggingExit { code: i32 },
    Finished,
}

/// The model of a `RunEvent`.
pub enum EventView {
    Begin,
    ImageLoaded(MetadataView),
    Done,
    StateLoaded(Map<Seq<char>, RecordView>),
    Spawned(u32),
    Exited(i32),
    Failed(ErrorView),
}

/// The model of a `RunAction`.
pub enum ActionView {
    LoadImageMetadata { store_root: Seq<char>, image: Seq<char> },
    PrepareOverlay(LayoutView),
    MountOverlay(LayoutView),
    LoadState,
    SaveState(Map<Seq<char>, RecordView>),
    AppendLog { path: Seq<char>, line: Seq<char> },
    SpawnProcess(ProcessView),
    ApplyLimits(LimitsView),
    WaitProcess(u32),
    Finish(Result<i32, ErrorView>),
}

impl View for RunStage {
    type V = StageView;

    open spec fn view(&self) -> StageView {
        match self {
            RunStage::Start => StageView::Start,
            RunStage::LoadingImage => StageView::LoadingImage,
            RunStage::PreparingOverlay { layout } => StageView::PreparingOverlay { layout: layout@ },
            RunStage::Mounting { layout } => StageView::Mounting { layout: layout@ },
            RunStage::LoadingState { layout } => StageView::LoadingState { layout: layout@ },
            RunStage::SavingCreated { state, layout } => StageView::SavingCreated {
                state: state@,
                layout: layout@,
            },
            RunStage::LoggingStart { state, layout } => StageView::LoggingStart {
                state: state@,
                layout: layout@,
            },
            RunStage::Spawning { state } => StageView::Spawning { state: state@ },
            RunStage::Limiting { state, pid } => StageView::Limiting { state: state@, pid: *pid },
            RunStage::Running { state } => StageView::Running { state: state@ },
            RunStage::SavingExited { code } => StageView::SavingExited { code: *code },
            RunStage::LoggingExit { code } => StageView::LoggingExit { code: *code },
            RunStage::Finished => StageView::Finished,
        }
    }
}

impl View for RunEvent {
    type V = EventView;

    open spec fn view(&self) -> EventView {
        match self {
            RunEvent::Begin => EventView::Begin,
            RunEvent::ImageLoaded(m) => EventView::ImageLoaded(m@),
            RunEvent::Done => EventView::Done,
            RunEvent::StateLoaded(s) => EventView::StateLoaded(s@),
            RunEvent::Spawned(p) => EventView::Spawned(*p),
            RunEvent::Exited(c) => EventView::Exited(*c),
            RunEvent::Failed(e) => EventView::Failed(e@),
        }
    }
}

impl View for RunAction {
    type V = ActionView;

    open spec fn view(&self) -> ActionView {
        match self {
            RunAction::LoadImageMetadata { store_root, image } => ActionView::LoadImageMetadata {
                store_root: store_root@,
                image: image@,
            },
            RunAction::PrepareOverlay(l) => ActionView::PrepareOverlay(l@),
            RunAction::MountOverlay(l) => ActionView::MountOverlay(l@),
            RunAction::LoadState => ActionView::LoadState,
            RunAction::SaveState(s) => ActionView::SaveState(s@),
            RunAction::AppendLog { path, line } => ActionView::AppendLog {
                path: path@,
                line: line@,
            },
            RunAction::SpawnProcess(p) => ActionView::SpawnProcess(p@),
            RunAction::ApplyLimits(l) => ActionView::ApplyLimits(l@),
            RunAction::WaitProcess(p) => ActionView::WaitProcess(*p),
            RunAction::Finish(r) => ActionView::Finish(
                match r {
                    Ok(c) => Ok(*c),
                    Err(e) => Err(e@),
                },
            ),
        }
    }
}

/// The record of a container that has just been created.
pub open spec fn created_record(req: RequestView) -> RecordView {
    RecordView {
        id: req.id,
        image: req.image,
        command: req.command,
        pid: None,
        state: "created"@,
    }
}

/// The registry with the container `id`, if recorded, marked as exited.
pub open spec fn mark_exited(state: Map<Seq<char>, RecordView>, id: Seq<char>) -> Map<
    Seq<char>,
    RecordView,
> {
    if state.contains_key(id) {
        state.insert(id, RecordView { state: "exited"@, ..state[id] })
    } else {
        state
    }
}

/// The process of container `req` on its merged overlay at `merged`: new
/// PID, UTS and mount namespaces, hostname `grindd-<id>`, `/proc` mounted.
pub open spec fn container_process(req: RequestView, merged: Seq<char>) -> ProcessView {
    ProcessView {
        argv: req.command,
        rootfs: Some(merged),
        namespaces: NamespaceView {
            pid: true,
            uts: true,
            mount: true,
            net: false,
            hostname: Some("grindd-"@ + req.id),
            mount_proc: true,
        },
    }
}

/// The request sets a memory limit or a CPU quota.
pub open spec fn has_limits(req: RequestView) -> bool {
    req.memory_max is Some || req.cpu_quota is Some
}

/// The cgroup `grindd/<id>` under `cgroup_root`, and the writes that set
/// `memory.max` to `memory` and `cpu.max` to "`cpu_quota` 100000" (each when
/// given), then move process `pid` into the group.
pub open spec fn limits_plan(
    cgroup_root: Seq<char>,
    id: Seq<char>,
    pid: u32,
    memory: Option<u64>,
    cpu_quota: Option<u64>,
) -> LimitsView {
    let group = path_join(cgroup_root, "grindd/"@ + id);
    LimitsView {
        group,
        writes: limit_writes(
            group,
            CgroupLimits { memory_max: memory, cpu_max_quota: cpu_quota, cpu_max_period: Some(100000) },
        ).push(pid_write(group, pid)),
    }
}

/// The events that the caller can report in `stage`.
pub open spec fn run_accepts(stage: StageView, event: EventView) -> bool {
    match (stage, event) {
        (StageView::Start, EventView::Begin) => true,
        (StageView::Start, _) => false,
        (StageView::Finished, _) => false,
        (_, EventView::Failed(_)) => true,
        (StageView::LoadingImage, EventView::ImageLoaded(_)) => true,
        (StageView::PreparingOverlay { .. }, EventView::Done) => true,
        (StageView::Mounting { .. }, EventView::Done) => true,
        (StageView::LoadingState { .. }, EventView::StateLoaded(_)) => true,
        (StageView::SavingCreated { .. }, EventView::Done) => true,
        (StageView::LoggingStart { .. }, EventView::Done) => true,
        (StageView::Spawning { .. }, EventView::Spawned(_)) => true,
        (StageView::Limiting { .. }, EventView::Done) => true,
        (StageView::Running { .. }, EventView::Exited(_)) => true,
        (StageView::SavingExited { .. }, EventView::Done) => true,
        (StageView::LoggingExit { .. }, EventView::Done) => true,
        _ => false,
    }
}

impl RunStage {
    /// Whether the caller can report `event` in this stage.
    pub fn accepts(&self, event: &RunEvent) -> (b: bool)
        ensures
            b == run_accepts(self@, event@),
    {
        match (self, event) {
            (RunStage::Start, RunEvent::Begin) => true,
            (RunStage::Start, _) => false,
            (RunStage::Finished, _) => false,
            (_, RunEvent::Failed(_)) => true,
            (RunStage::LoadingImage, RunEvent::ImageLoaded(_)) => true,
            (RunStage::PreparingOverlay { .. }, RunEvent::Done) => true,
            (RunStage::Mounting { .. }, RunEvent::Done) => true,
            (RunStage::LoadingState { .. }, RunEvent::StateLoaded(_)) => true,
            (RunStage::SavingCreated { .. }, RunEvent::Done) => true,
            (RunStage::LoggingStart { .. }, RunEvent::Done) => true,
            (RunStage::Spawning { .. }, RunEvent::Spawned(_)) => true,
            (RunStage::Limiting { .. }, RunEvent::Done) => true,
            (RunStage::Running { .. }, RunEvent::Exited(_)) => true,
            (RunStage::SavingExited { .. }, RunEvent::Done) => true,
            (RunStage::LoggingExit { .. }, RunEvent::Done) => true,
            _ => false,
        }
    }
}

/// One decision of running container `req` with state under `root` and the
/// cgroup hierarchy at `cgroup_root`: read the image metadata; prepare and
/// mount the overlay; record the container as created and save the registry;
/// log the start; start the process; when the request sets a memory limit or
/// a CPU quota, put the process in its cgroup with those limits; wait for the
/// process; record it as exited and save the registry; log the exit code;
/// finish with it. A failed action ends the run with its error; so does an
/// empty command, after the start is logged.
pub open spec fn run_step(
    root: Seq<char>,
    cgroup_root: Seq<char>,
    req: RequestView,
    stage: StageView,
    event: EventView,
) -> (
    StageView,
    ActionView,
) {
    match (stage, event) {
        (StageView::Start, _) => (
            StageView::LoadingImage,
            ActionView::LoadImageMetadata { store_root: root, image: req.image },
        ),
        (_, EventView::Failed(e)) => (StageView::Finished, ActionView::Finish(Err(e))),
        (StageView::LoadingImage, EventView::ImageLoaded(m)) => {
            let layout = overlay_layout(root, req.id, m.extracted_root);
            (StageView::PreparingOverlay { layout }, ActionView::PrepareOverlay(layout))
        },
        (StageView::PreparingOverlay { layout }, _) => (
            StageView::Mounting { layout },
            ActionView::MountOverlay(layout),
        ),
        (StageView::Mounting { layout }, _) => (
            StageView::LoadingState { layout },
            ActionView::LoadState,
        ),
        (StageView::LoadingState { layout }, EventView::StateLoaded(s)) => {
            let state = s.insert(req.id, created_record(req));
            (StageView::SavingCreated { state, layout }, ActionView::SaveState(state))
        },
        (StageView::SavingCreated { state, layout }, _) => (
            StageView::LoggingStart { state, layout },
            ActionView::AppendLog {
                path: log_path(root, req.id),
                line: "starting container process"@,
            },
        ),
        (StageView::LoggingStart { state, layout }, _) => {
            if req.command.len() == 0 {
                (StageView::Finished, ActionView::Finish(Err(ErrorView::Runtime("empty command"@))))
            } else {
                (
                    StageView::Spawning { state },
                    ActionView::SpawnProcess(container_process(req, layout.merged)),
                )
            }
        },
        (StageView::Spawning { state }, EventView::Spawned(pid)) => {
            if has_limits(req) {
                (
                    StageView::Limiting { state, pid },
                    ActionView::ApplyLimits(
                        limits_plan(cgroup_root, req.id, pid, req.memory_max, req.cpu_quota),
                    ),
                )
            } else {
                (StageView::Running { state }, ActionView::WaitProcess(pid))
            }
        },
        (StageView::Limiting { state, pid }, _) => (
            StageView::Running { state },
            ActionView::WaitProcess(pid),
        ),
        (StageView::Running { state }, EventView::Exited(code)) => (
            StageView::SavingExited { code },
            ActionView::SaveState(mark_exited(state, req.id)),
        ),
        (StageView::SavingExited { code }, _) => (
            StageView::LoggingExit { code },
            ActionView::AppendLog {
                path: log_path(root, req.id),
                line: "container exited with code "@ + signed_decimal(code as int),
            },
        ),
        (StageView::LoggingExit { code }, _) => (StageView::Finished, ActionView::Finish(Ok(code))),
        // `run_accepts` rules out every other combination.
        _ => (StageView::Finished, ActionView::LoadState),
    }
}

/// A build read from a build file: its plan, where the layer cache is kept,
/// and for each instruction the file whose content its key needs (the source
/// of a `COPY`, under the build context).
pub struct BuildJob {
    pub plan: BuildPlan,
    pub cache_path: String,
    pub copy_sources: Vec<Option<String>>,
}

pub open spec fn copy_source_paths(context: Seq<char>, plan: Seq<InstructionView>) -> Seq<
    Option<Seq<char>>,
> {
    Seq::new(
        plan.len(),
        |i: int|
            match plan[i] {
                InstructionView::Copy { src, .. } => Some(path_join(context, src)),
                _ => None,
            },
    )
}

pub open spec fn option_views(v: Seq<Option<String>>) -> Seq<Option<Seq<char>>> {
    v.map_values(
        |o: Option<String>|
            match o {
                Some(s) => Some(s@),
                None => None,
            },
    )
}

/// A cgroup to create for a container and the writes that limit it and move
/// its process into it.
pub struct LimitsPlan {
    pub group: String,
    pub writes: Vec<CgroupWrite>,
}

/// The model of a `LimitsPlan`.
pub struct LimitsView {
    pub group: Seq<char>,
    pub writes: Seq<WriteView>,
}

impl View for LimitsPlan {
    type V = LimitsView;

    open spec fn view(&self) -> LimitsView {
        LimitsView { group: self.group@, writes: write_views(self.writes@) }
    }
}

/// The records of a registry listed in some order, each once.
pub open spec fn lists_registry(recs: Seq<RecordView>, m: Map<Seq<char>, RecordView>) -> bool {
    exists|ks: Seq<Seq<char>>|
        {
            &&& ks.len() == recs.len()
            &&& ks.no_duplicates()
            &&& ks.to_set() == m.dom()
            &&& forall|i: int| 0 <= i < ks.len() ==> #[trigger] recs[i] == m[ks[i]]
        }
}

pub open spec fn record_views(v: Seq<ContainerRecord>) -> Seq<RecordView> {
    v.map_values(|r: ContainerRecord| r@)
}

/// What `inspect` answers for container `id`.
pub open spec fn inspect_result(m: Map<Seq<char>, RecordView>, id: Seq<char>) -> Result<
    RecordView,
    ErrorView,
> {
    if m.contains_key(id) {
        Ok(m[id])
    } else {
        Err(ErrorView::Daemon("container "@ + id + " not found"@))
    }
}

impl Engine {
    /// An engine with its state under `state_root` and the default cgroup
    /// hierarchy.
    pub fn new(state_root: String) -> (r: Self)
        ensures
            r.daemon.state_root == state_root,
            r.cgroups.root@ == "/sys/fs/cgroup"@,
    {
        Engine { daemon: Daemon::new(state_root), cgroups: CgroupV2Manager::default() }
    }

    /// The directories that bootstrapping creates (the caller creates them).
    pub fn bootstrap(&self) -> (r: Vec<String>)
        ensures
            views(r@) == seq![
                path_join(self.daemon.state_root@, "containers"@),
                path_join(self.daemon.state_root@, "images"@),
                path_join(self.daemon.state_root@, "logs"@),
                path_join(self.daemon.state_root@, "run"@),
            ],
    {
        self.daemon.ensure_layout()
    }

    /// The metadata of image `name` loaded from the archive at `tar_path`
    /// with content `tar_bytes` (the caller extracts the archive into the
    /// image's root filesystem and saves the metadata).
    pub fn load_image(&self, name: &str, tar_path: &str, tar_bytes: &[u8]) -> (r: ImageMetadata)
        ensures
            r@ == (MetadataView {
                name: name@,
                digest: content_digest_text(tar_bytes@),
                source_tar: tar_path@,
                extracted_root: path_join(image_dir(self.daemon.state_root@, name@), "rootfs"@),
            }),
            r.digest@.len() == 64,
    {
        describe_image(self.daemon.state_root.as_str(), name, tar_path, tar_bytes)
    }

    /// The next action of running container `req`, given where the run is
    /// and what the caller reports of the last action.
    pub fn run_container(&self, req: &RunRequest, stage: RunStage, event: RunEvent) -> (r: (
        RunStage,
        RunAction,
    ))
        requires
            run_accepts(stage@, event@),
        ensures
            (r.0@, r.1@) == run_step(self.daemon.state_root@, self.cgroups.root@, req@, stage@, event@),
    {
        let root = self.daemon.state_root.as_str();
        match stage {
            RunStage::Start => (
                RunStage::LoadingImage,
                RunAction::LoadImageMetadata {
                    store_root: String::from_str(root),
                    image: req.image.clone(),
                },
            ),
            RunStage::Finished => vstd::pervasive::unreached(),
            stage => match event {
                RunEvent::Failed(e) => (RunStage::Finished, RunAction::Finish(Err(e))),
                event => self.run_container_next(req, stage, event),
            },
        }
    }

    fn run_container_next(&self, req: &RunRequest, stage: RunStage, event: RunEvent) -> (r: (
        RunStage,
        RunAction,
    ))
        requires
            run_accepts(stage@, event@),
            !(stage is Start),
            !(stage is Finished),
            !(event is Failed),
        ensures
            (r.0@, r.1@) == run_step(self.daemon.state_root@, self.cgroups.root@, req@, stage@, event@),
    {
        let root = self.daemon.state_root.as_str();
        match stage {
            RunStage::LoadingImage => match event {
                RunEvent::ImageLoaded(m) => {
                    let layout = prepare_overlay_layout(
                        root,
                        req.id.as_str(),
                        m.extracted_root.as_str(),
                    );
                    let action = RunAction::PrepareOverlay(layout.duplicate());
                    (RunStage::PreparingOverlay { layout }, action)
                },
                _ => vstd::pervasive::unreached(),
            },
            RunStage::PreparingOverlay { layout } => {
                let action = RunAction::MountOverlay(layout.duplicate());
                (RunStage::Mounting { layout }, action)
            },
            RunStage::Mounting { layout } => (RunStage::LoadingState { layout }, RunAction::LoadState),
            RunStage::LoadingState { layout } => match event {
                RunEvent::StateLoaded(s) => {
                    let mut state = s;
                    let record = ContainerRecord {
                        id: req.id.clone(),
                        image: req.image.clone(),
                        command: clone_strings(&req.command),
                        pid: None,
                        state: String::from_str("created"),
                    };
                    let ghost created = record@;
                    state.containers.insert(req.id.clone(), record);
                    let saved = state.duplicate();
                    assert(state@ =~= s@.insert(req@.id, created));
                    (RunStage::SavingCreated { state, layout }, RunAction::SaveState(saved))
                },
                _ => vstd::pervasive::unreached(),
            },
            RunStage::SavingCreated { state, layout } => (
                RunStage::LoggingStart { state, layout },
                RunAction::AppendLog {
                    path: container_log_path(root, req.id.as_str()),
                    line: String::from_str("starting container process"),
                },
            ),
            RunStage::LoggingStart { state, layout } => {
                let hostname = concat("grindd-", req.id.as_str());
                let spec = ProcessSpec {
                    argv: clone_strings(&req.command),
                    rootfs: Some(layout.merged.clone()),
                    namespaces: NamespaceSpec {
                        pid: true,
                        uts: true,
                        mount: true,
                        net: false,
                        hostname: Some(hostname),
                        mount_proc: true,
                    },
                };
                match check_process_spec(&spec) {
                    Err(e) => (RunStage::Finished, RunAction::Finish(Err(e))),
                    Ok(()) => (RunStage::Spawning { state }, RunAction::SpawnProcess(spec)),
                }
            },
            RunStage::Spawning { state } => match event {
                RunEvent::Spawned(pid) => {
                    if req.memory_max.is_some() || req.cpu_quota.is_some() {
                        let plan = self.apply_limits(
                            req.id.as_str(),
                            pid,
                            req.memory_max,
                            req.cpu_quota,
                        );
                        (RunStage::Limiting { state, pid }, RunAction::ApplyLimits(plan))
                    } else {
                        (RunStage::Running { state }, RunAction::WaitProcess(pid))
                    }
                },
                _ => vstd::pervasive::unreached(),
            },
            RunStage::Limiting { state, pid } => (
                RunStage::Running { state },
                RunAction::WaitProcess(pid),
            ),
            RunStage::Running { state } => match event {
                RunEvent::Exited(code) => {
                    let mut state = state;
                    let ghost before = state@;
                    let updated = match state.containers.get(req.id.as_str()) {
                        Some(record) => {
                            let mut changed = record.duplicate();
                            changed.state = String::from_str("exited");
                            Some(changed)
                        },
                        None => None,
                    };
                    match updated {
                        Some(changed) => {
                            let ghost changed_view = changed@;
                            state.containers.insert(req.id.clone(), changed);
                            assert(state@ =~= before.insert(req@.id, changed_view));
                        },
                        None => {},
                    }
                    assert(state@ =~= mark_exited(before, req@.id));
                    (RunStage::SavingExited { code }, RunAction::SaveState(state))
                },
                _ => vstd::pervasive::unreached(),
            },
            RunStage::SavingExited { code } => {
                let code_text = signed_decimal_string(code);
                (
                    RunStage::LoggingExit { code },
                    RunAction::AppendLog {
                        path: container_log_path(root, req.id.as_str()),
                        line: concat("container exited with code ", code_text.as_str()),
                    },
                )
            },
            RunStage::LoggingExit { code } => (RunStage::Finished, RunAction::Finish(Ok(code))),
            _ => vstd::pervasive::unreached(),
        }
    }

    /// The cgroup `grindd/<id>` of container `id`, and the writes that set its
    /// memory limit and CPU quota (period 100000) and move process `pid` into
    /// it; the caller creates the group and performs the writes in order.
    pub fn apply_limits(
        &self,
        id: &str,
        pid: u32,
        memory: Option<u64>,
        cpu_quota: Option<u64>,
    ) -> (r: LimitsPlan)
        ensures
            r@ == limits_plan(self.cgroups.root@, id@, pid, memory, cpu_quota),
    {
        let name = concat("grindd/", id);
        let group = self.cgroups.create_group(name.as_str());
        let limits = CgroupLimits {
            memory_max: memory,
            cpu_max_quota: cpu_quota,
            cpu_max_period: Some(100000),
        };
        let mut writes = self.cgroups.apply_limits(group.as_str(), &limits);
        let attach = self.cgroups.attach_pid(group.as_str(), pid);
        let ghost before = writes@;
        writes.push(attach);
        assert(write_views(writes@) =~= write_views(before).push(attach@));
        LimitsPlan { group, writes }
    }

    /// The commands that set up the default network of container `id`; the
    /// caller runs them in order and stops at the first failure.
    pub fn setup_default_network(&self, id: &str) -> (r: Vec<HostCommand>)
        ensures
            command_views(r@) == setup_commands(default_plan(id@)),
    {
        let plan = default_network_plan(id);
        setup_network(&plan)
    }

    /// The records of the registry `state` (the caller reads it).
    pub fn list_containers(&self, state: &DaemonState) -> (r: Vec<ContainerRecord>)
        ensures
            lists_registry(record_views(r@), state@),
    {
        let entries = state.containers.entries();
        let mut r: Vec<ContainerRecord> = Vec::new();
        let mut i: usize = 0;
        while i < entries.len()
            invariant
                i <= entries@.len(),
                keys_unique(entries@),
                state.containers@ == entries_map(entries@),
                record_views(r@) == entries@.take(i as int).map_values(
                    |p: (String, ContainerRecord)| p.1@,
                ),
            decreases entries@.len() - i,
        {
            let rec = entries[i].1.duplicate();
            let ghost before = r@;
            r.push(rec);
            assert(record_views(r@) =~= record_views(before).push(rec@));
            assert(entries@.take(i + 1).map_values(|p: (String, ContainerRecord)| p.1@)
                =~= entries@.take(i as int).map_values(|p: (String, ContainerRecord)| p.1@).push(
                entries@[i as int].1@,
            ));
            i = i + 1;
        }
        proof {
            let e = entries@;
            assert(e.take(e.len() as int) =~= e);
            lemma_entries_map_dom(e);
            let ks = entry_keys(e);
            assert forall|j: int| 0 <= j < ks.len() implies #[trigger] record_views(r@)[j]
                == state@[ks[j]] by {
                lemma_entries_map_at(e, j);
            }
            assert(ks.to_set() == state@.dom());
        }
        r
    }

    /// Removes container `id` from the registry `state` (the caller reads and
    /// saves it).
    pub fn remove_container(&self, state: &mut DaemonState, id: &str)
        ensures
            final(state)@ == old(state)@.remove(id@),
    {
        state.containers.remove(id);
        assert(state@ =~= old(state)@.remove(id@));
    }

    /// The log file of container `id`.
    pub fn container_log_path(&self, id: &str) -> (r: String)
        ensures
            r@ == log_path(self.daemon.state_root@, id@),
    {
        container_log_path(self.daemon.state_root.as_str(), id)
    }

    /// The logs of container `id`, given the content of its log file if it
    /// exists (the caller reads it).
    pub fn container_logs(&self, id: &str, log: Option<String>) -> (r: Result<String, GrinddError>)
        ensures
            match (log, r) {
                (Some(text), Ok(out)) => out == text,
                (None, Err(e)) => e@ == ErrorView::Daemon("no logs for container "@ + id@),
                _ => false,
            },
    {
        match log {
            Some(text) => Ok(text),
            None => Err(GrinddError::Daemon(concat("no logs for container ", id))),
        }
    }

    /// The record of container `id` in the registry `state`.
    pub fn inspect(&self, state: &DaemonState, id: &str) -> (r: Result<ContainerRecord, GrinddError>)
        ensures
            match r {
                Ok(rec) => inspect_result(state@, id@) == Ok::<RecordView, ErrorView>(rec@),
                Err(e) => inspect_result(state@, id@) == Err::<RecordView, ErrorView>(e@),
            },
    {
        match state.containers.get(id) {
            Some(rec) => Ok(rec.duplicate()),
            None => {
                let mut m = concat("container ", id);
                m.append(" not found");
                Err(GrinddError::Daemon(m))
            },
        }
    }

    /// The lifecycle report of container `id`.
    pub fn explain(&self, id: &str) -> (r: ExplainReport)
        ensures
            r.container_id@ == id@,
            step_views(r.steps@) == lifecycle_steps(),
    {
        build_explain_report(id)
    }

    /// Reads the build file with text `build_text` for the build context at
    /// `context`: its plan, where the cache is kept, and which file each
    /// `COPY` needs (the caller loads the cache, reads those files, runs
    /// `execute_build` and saves the cache).
    pub fn build_from_file(&self, context: &str, build_text: &str) -> (r: Result<BuildJob, GrinddError>)
        ensures
            match r {
                Ok(job) => {
                    &&& parse_build_text(build_text@) == Ok::<Seq<InstructionView>, ErrorView>(
                        job.plan@,
                    )
                    &&& job.cache_path@ == path_join(self.daemon.state_root@, "build-cache.json"@)
                    &&& option_views(job.copy_sources@) == copy_source_paths(context@, job.plan@)
                },
                Err(e) => parse_build_text(build_text@) == Err::<Seq<InstructionView>, ErrorView>(
                    e@,
                ),
            },
    {
        let plan = parse_build_file(build_text)?;
        let cache_path = default_cache_path(self.daemon.state_root.as_str());
        let mut copy_sources: Vec<Option<String>> = Vec::new();
        let mut i: usize = 0;
        while i < plan.instructions.len()
            invariant
                i <= plan.instructions@.len(),
                option_views(copy_sources@) == copy_source_paths(context@, plan@).take(i as int),
            decreases plan.instructions@.len() - i,
        {
            let source = match &plan.instructions[i] {
                BuildInstruction::Copy { src, .. } => Some(join(context, src.as_str())),
                _ => None,
            };
            let ghost before = copy_sources@;
            copy_sources.push(source);
            assert(option_views(copy_sources@) =~= option_views(before).push(
                copy_source_paths(context@, plan@)[i as int],
            ));
            assert(copy_source_paths(context@, plan@).take(i + 1) =~= copy_source_paths(
                context@,
                plan@,
            ).take(i as int).push(copy_source_paths(context@, plan@)[i as int]));
            i = i + 1;
        }
        assert(copy_source_paths(context@, plan@).take(i as int) =~= copy_source_paths(
            context@,
            plan@,
        ));
        Ok(BuildJob { plan, cache_path, copy_sources })
    }
}


/// A failed action ends the run, at whatever stage, with the failure.
pub proof fn law_failure_ends_run(
    root: Seq<char>,
    cgroup_root: Seq<char>,
    req: RequestView,
    stage: StageView,
    e: ErrorView,
)
    requires
        !(stage is Start),
        !(stage is Finished),
    ensures
        run_accepts(stage, EventView::Failed(e)),
        run_step(root, cgroup_root, req, stage, EventView::Failed(e)) == (
            StageView::Finished,
            ActionView::Finish(Err::<i32, ErrorView>(e)),
        ),
{
}

/// The first seven steps of a run whose every action succeeds, up to starting
/// the process: the container is recorded as created and the registry saved
/// before its process starts, with the request's command on the merged
/// overlay.
pub proof fn law_run_starts_container(
    root: Seq<char>,
    cgroup_root: Seq<char>,
    req: RequestView,
    image: MetadataView,
    loaded: Map<Seq<char>, RecordView>,
)
    requires
        req.command.len() > 0,
    ensures
        ({
            let (s1, a1) = run_step(root, cgroup_root, req, StageView::Start, EventView::Begin);
            let (s2, a2) = run_step(root, cgroup_root, req, s1, EventView::ImageLoaded(image));
            let (s3, a3) = run_step(root, cgroup_root, req, s2, EventView::Done);
            let (s4, a4) = run_step(root, cgroup_root, req, s3, EventView::Done);
            let (s5, a5) = run_step(root, cgroup_root, req, s4, EventView::StateLoaded(loaded));
            let (s6, a6) = run_step(root, cgroup_root, req, s5, EventView::Done);
            let (s7, a7) = run_step(root, cgroup_root, req, s6, EventView::Done);
            let layout = overlay_layout(root, req.id, image.extracted_root);
            &&& run_accepts(StageView::Start, EventView::Begin)
            &&& run_accepts(s1, EventView::ImageLoaded(image))
            &&& run_accepts(s2, EventView::Done)
            &&& run_accepts(s3, EventView::Done)
            &&& run_accepts(s4, EventView::StateLoaded(loaded))
            &&& run_accepts(s5, EventView::Done)
            &&& run_accepts(s6, EventView::Done)
            &&& a1 == ActionView::LoadImageMetadata { store_root: root, image: req.image }
            &&& a2 == ActionView::PrepareOverlay(layout)
            &&& a3 == ActionView::MountOverlay(layout)
            &&& a4 == ActionView::LoadState
            &&& a5 == ActionView::SaveState(loaded.insert(req.id, created_record(req)))
            &&& a6 == ActionView::AppendLog {
                path: log_path(root, req.id),
                line: "starting container process"@,
            }
            &&& a7 == ActionView::SpawnProcess(container_process(req, layout.merged))
            &&& s7 == StageView::Spawning { state: loaded.insert(req.id, created_record(req)) }
        }),
{
}

/// Once the process of a run is started with pid `pid`: when the request
/// sets a memory limit or a CPU quota, the process is first put in the cgroup
/// `grindd/<id>` under `cgroup_root`, with `memory.max` set to the memory
/// limit and `cpu.max` to "quota 100000"; then the run waits for it. After it
/// exits with `code`, the saved registry records the container as exited and
/// leaves every other container as it was, the exit code is logged, and the
/// run finishes with it.
pub proof fn law_run_limits_and_records_exit(
    root: Seq<char>,
    cgroup_root: Seq<char>,
    req: RequestView,
    state: Map<Seq<char>, RecordView>,
    pid: u32,
    code: i32,
)
    requires
        state.contains_key(req.id),
        state[req.id] == created_record(req),
    ensures
        ({
            let (s1, a1) = run_step(
                root,
                cgroup_root,
                req,
                StageView::Spawning { state },
                EventView::Spawned(pid),
            );
            let group = path_join(cgroup_root, "grindd/"@ + req.id);
            let limited = has_limits(req);
            // With limits, one more step applies them before the wait.
            let (s2, a2) = if limited {
                run_step(root, cgroup_root, req, s1, EventView::Done)
            } else {
                (s1, a1)
            };
            let (s3, a3) = run_step(root, cgroup_root, req, s2, EventView::Exited(code));
            let (s4, a4) = run_step(root, cgroup_root, req, s3, EventView::Done);
            let (s5, a5) = run_step(root, cgroup_root, req, s4, EventView::Done);
            let exited = RecordView { state: "exited"@, ..created_record(req) };
            &&& run_accepts(StageView::Spawning { state }, EventView::Spawned(pid))
            &&& limited ==> run_accepts(s1, EventView::Done)
            &&& run_accepts(s2, EventView::Exited(code))
            &&& run_accepts(s3, EventView::Done)
            &&& run_accepts(s4, EventView::Done)
            &&& limited ==> a1 == ActionView::ApplyLimits(
                limits_plan(cgroup_root, req.id, pid, req.memory_max, req.cpu_quota),
            )
            &&& limited ==> (a1 matches ActionView::ApplyLimits(plan) && {
                &&& plan.group == group
                &&& plan.writes.last() == pid_write(group, pid)
                &&& (req.memory_max matches Some(m) ==> plan.writes[0].path == path_join(
                    group,
                    "memory.max"@,
                ) && plan.writes[0].contents == decimal(m as nat))
                &&& (req.cpu_quota matches Some(q) ==> plan.writes[plan.writes.len() - 2].path
                    == path_join(group, "cpu.max"@) && plan.writes[plan.writes.len()
                    - 2].contents == decimal(q as nat) + " "@ + decimal(100000))
            })
            &&& a2 == ActionView::WaitProcess(pid)
            &&& a3 == ActionView::SaveState(state.insert(req.id, exited))
            &&& inspect_result(state.insert(req.id, exited), req.id) == Ok::<RecordView, ErrorView>(
                exited,
            )
            &&& forall|k: Seq<char>|
                k != req.id ==> inspect_result(state.insert(req.id, exited), k) == inspect_result(
                    state,
                    k,
                )
            &&& a4 == ActionView::AppendLog {
                path: log_path(root, req.id),
                line: "container exited with code "@ + signed_decimal(code as int),
            }
            &&& a5 == ActionView::Finish(Ok::<i32, ErrorView>(code))
            &&& s5 == StageView::Finished
        }),
{
    let exited = RecordView { state: "exited"@, ..created_record(req) };
    assert(mark_exited(state, req.id) =~= state.insert(req.id, exited));
}

/// A run of an empty command records the container as created and logs its
/// start, then ends with the runtime error "empty command".
pub proof fn law_run_empty_command(
    root: Seq<char>,
    cgroup_root: Seq<char>,
    req: RequestView,
    layout: LayoutView,
    state: Map<Seq<char>, RecordView>,
)
    requires
        req.command.len() == 0,
    ensures
        run_step(root, cgroup_root, req, StageView::LoggingStart { state, layout }, EventView::Done)
            == (
            StageView::Finished,
            ActionView::Finish(Err::<i32, ErrorView>(ErrorView::Runtime("empty command"@))),
        ),
{
}

/// Once a container is removed, inspecting it reports that it is not found,
/// and inspecting any other container answers as before.
pub proof fn law_removed_container_not_found(m: Map<Seq<char>, RecordView>, id: Seq<char>, other: Seq<char>)
    ensures
        inspect_result(m.remove(id), id) == Err::<RecordView, ErrorView>(
            ErrorView::Daemon("container "@ + id + " not found"@),
        ),
        other != id ==> inspect_result(m.remove(id), other) == inspect_result(m, other),
{
}

/// A container's process is moved into its cgroup only after its limits are
/// set: the write that attaches the process comes last, and it is performed
/// only when every write before it went through.
pub proof fn law_process_attached_after_limits(
    cgroup_root: Seq<char>,
    id: Seq<char>,
    pid: u32,
    memory: Option<u64>,
    cpu_quota: Option<u64>,
    outcomes: Seq<WriteOutcomeView>,
)
    requires
        outcomes.len() == limits_plan(cgroup_root, id, pid, memory, cpu_quota).writes.len(),
        run_sequence(
            write_stops(limits_plan(cgroup_root, id, pid, memory, cpu_quota).writes, outcomes),
            0,
        ).0 == limits_plan(cgroup_root, id, pid, memory, cpu_quota).writes.len(),
    ensures
        ({
            let plan = limits_plan(cgroup_root, id, pid, memory, cpu_quota);
            &&& plan.writes.last() == pid_write(plan.group, pid)
            &&& forall|j: int| 0 <= j < plan.writes.len() - 1 ==> outcomes[j] is Written
        }),
{
    let plan = limits_plan(cgroup_root, id, pid, memory, cpu_quota);
    let stops = write_stops(plan.writes, outcomes);
    law_last_item_only_after_all_before(stops);
    assert forall|j: int| 0 <= j < plan.writes.len() - 1 implies outcomes[j] is Written by {
        assert(stops[j] is None);
    }
}

/// Once the registry is read, a run records the new container under its id
/// with the request's own image and command, no pid, in state "created", and
/// saves the registry with every other record as it was.
pub proof fn law_run_records_request_as_created(
    root: Seq<char>,
    cgroup_root: Seq<char>,
    req: RequestView,
    layout: LayoutView,
    s: Map<Seq<char>, RecordView>,
)
    ensures
        ({
            let (next, action) = run_step(
                root,
                cgroup_root,
                req,
                StageView::LoadingState { layout },
                EventView::StateLoaded(s),
            );
            &&& action matches ActionView::SaveState(m)
            &&& action->SaveState_0.contains_key(req.id)
            &&& action->SaveState_0[req.id].id == req.id
            &&& action->SaveState_0[req.id].image == req.image
            &&& action->SaveState_0[req.id].command == req.command
            &&& action->SaveState_0[req.id].pid is None
            &&& action->SaveState_0[req.id].state == "created"@
            &&& forall|k: Seq<char>|
                k != req.id ==> (#[trigger] action->SaveState_0.contains_key(k) == s.contains_key(k)
                    && (s.contains_key(k) ==> action->SaveState_0[k] == s[k]))
            &&& next matches StageView::SavingCreated { state, .. } && state == action->SaveState_0
        }),
{
}

/// A run with a command starts it, after logging the start, in the
/// container's merged overlay: the request's command line as it is, new PID,
/// UTS and mount namespaces (the host's network), hostname `grindd-<id>`, and
/// `/proc` mounted.
pub proof fn law_run_spawns_request_command(
    root: Seq<char>,
    cgroup_root: Seq<char>,
    req: RequestView,
    state: Map<Seq<char>, RecordView>,
    layout: LayoutView,
)
    requires
        req.command.len() > 0,
    ensures
        ({
            let (next, action) = run_step(
                root,
                cgroup_root,
                req,
                StageView::LoggingStart { state, layout },
                EventView::Done,
            );
            &&& next == StageView::Spawning { state }
            &&& action matches ActionView::SpawnProcess(p)
            &&& action->SpawnProcess_0.argv == req.command
            &&& action->SpawnProcess_0.rootfs == Some(layout.merged)
            &&& action->SpawnProcess_0.namespaces.pid
            &&& action->SpawnProcess_0.namespaces.uts
            &&& action->SpawnProcess_0.namespaces.mount
            &&& !action->SpawnProcess_0.namespaces.net
            &&& action->SpawnProcess_0.namespaces.hostname == Some("grindd-"@ + req.id)
            &&& action->SpawnProcess_0.namespaces.mount_proc
        }),
{
}

/// When the process exits, the run saves the registry with the container
/// marked "exited" (its id, image, command and pid as they were) and every
/// other record unchanged.
pub proof fn law_run_records_exit(
    root: Seq<char>,
    cgroup_root: Seq<char>,
    req: RequestView,
    state: Map<Seq<char>, RecordView>,
    code: i32,
)
    ensures
        ({
            let (next, action) = run_step(
                root,
                cgroup_root,
                req,
                StageView::Running { state },
                EventView::Exited(code),
            );
            &&& next == StageView::SavingExited { code }
            &&& action matches ActionView::SaveState(m)
            &&& forall|k: Seq<char>| #[trigger]
                action->SaveState_0.contains_key(k) == state.contains_key(k)
            &&& forall|k: Seq<char>|
                k != req.id && #[trigger] state.contains_key(k) ==> action->SaveState_0[k]
                    == state[k]
            &&& state.contains_key(req.id) ==> action->SaveState_0[req.id] == (RecordView {
                id: state[req.id].id,
                image: state[req.id].image,
                command: state[req.id].command,
                pid: state[req.id].pid,
                state: "exited"@,
            })
        }),
{
}

/// The cgroup of container `id` is `grindd/<id>` under the hierarchy; a run
/// writes `memory.max` (the limit in decimal) when a memory limit is given,
/// then `cpu.max` ("<quota> 100000") when a quota is given, and last writes
/// the pid to `cgroup.procs`.
pub proof fn law_limits_plan_writes(
    cgroup_root: Seq<char>,
    id: Seq<char>,
    pid: u32,
    memory: Option<u64>,
    cpu_quota: Option<u64>,
)
    ensures
        ({
            let plan = limits_plan(cgroup_root, id, pid, memory, cpu_quota);
            let g = path_join(cgroup_root, "grindd/"@ + id);
            let mw: int = if memory is Some {
                1
            } else {
                0
            };
            let cw: int = if cpu_quota is Some {
                1
            } else {
                0
            };
            &&& plan.group == g
            &&& plan.writes.len() == mw + cw + 1
            &&& memory matches Some(m) ==> plan.writes[0] == (WriteView {
                path: path_join(g, "memory.max"@),
                contents: decimal(m as nat),
                failure: "write memory.max failed"@,
            })
            &&& cpu_quota matches Some(q) ==> plan.writes[mw] == (WriteView {
                path: path_join(g, "cpu.max"@),
                contents: decimal(q as nat) + " "@ + decimal(100000),
                failure: "write cpu.max failed"@,
            })
            &&& plan.writes[mw + cw] == (WriteView {
                path: path_join(g, "cgroup.procs"@),
                contents: decimal(pid as nat),
                failure: "attach pid failed"@,
            })
        }),
{
}

/// A run logs "starting container process" to `<root>/logs/<id>.log` once
/// the created record is saved, logs "container exited with code <code>"
/// there once the exit is saved, and then returns the exit code.
pub proof fn law_run_logs_and_returns_exit_code(
    root: Seq<char>,
    cgroup_root: Seq<char>,
    req: RequestView,
    state: Map<Seq<char>, RecordView>,
    layout: LayoutView,
    code: i32,
)
    ensures
        ({
            let log = path_join(path_join(root, "logs"@), req.id + ".log"@);
            &&& run_step(
                root,
                cgroup_root,
                req,
                StageView::SavingCreated { state, layout },
                EventView::Done,
            ).1 == ActionView::AppendLog { path: log, line: "starting container process"@ }
            &&& run_step(
                root,
                cgroup_root,
                req,
                StageView::SavingExited { code },
                EventView::Done,
            ).1 == ActionView::AppendLog {
                path: log,
                line: "container exited with code "@ + signed_decimal(code as int),
            }
            &&& run_step(root, cgroup_root, req, StageView::LoggingExit { code }, EventView::Done)
                == (StageView::Finished, ActionView::Finish(Ok(code)))
        }),
{
}

} // verus!
