//! What a container process is started with: its command line, its root
//! filesystem, and the namespaces it gets.

use vstd::prelude::*;
use vstd::string::*;

use crate::error::{ErrorView, GrinddError};
use crate::rootfs::{RootfsPlan, RootfsView};
use crate::text::views;

verus! {

/// The namespaces a process gets, its hostname, and whether `/proc` is
/// mounted inside it.
#[derive(Debug, Clone)]
pub struct NamespaceSpec {
    pub pid: bool,
    pub uts: bool,
    pub mount: bool,
    pub net: bool,
    pub hostname: Option<String>,
    pub mount_proc: bool,
}

/// The model of a `NamespaceSpec`.
pub struct NamespaceView {
    pub pid: bool,
    pub uts: bool,
    pub mount: bool,
    pub net: bool,
    pub hostname: Option<Seq<char>>,
    pub mount_proc: bool,
}

impl View for NamespaceSpec {
    type V = NamespaceView;

    open spec fn view(&self) -> NamespaceView {
        NamespaceView {
            pid: self.pid,
            uts: self.uts,
            mount: self.mount,
            net: self.net,
            hostname: match self.hostname {
                Some(h) => Some(h@),
                None => None,
            },
            mount_proc: self.mount_proc,
        }
    }
}

impl Default for NamespaceSpec {
    /// No namespaces, no hostname, no `/proc`.
    fn default() -> (r: Self)
        ensures
            r@ == (NamespaceView {
                pid: false,
                uts: false,
                mount: false,
                net: false,
                hostname: None,
                mount_proc: false,
            }),
    {
        NamespaceSpec {
            pid: false,
            uts: false,
            mount: false,
            net: false,
            hostname: None,
            mount_proc: false,
        }
    }
}

/// A process to start: its command line, the root filesystem to enter (if
/// any), and its namespaces.
#[derive(Debug, Clone)]
pub struct ProcessSpec {
    pub argv: Vec<String>,
    pub rootfs: Option<String>,
    pub namespaces: NamespaceSpec,
}

/// The model of a `ProcessSpec`.
pub struct ProcessView {
    pub argv: Seq<Seq<char>>,
    pub rootfs: Option<Seq<char>>,
    pub namespaces: NamespaceView,
}

impl View for ProcessSpec {
    type V = ProcessView;

    open spec fn view(&self) -> ProcessView {
        ProcessView {
            argv: views(self.argv@),
            rootfs: match self.rootfs {
                Some(r) => Some(r@),
                None => None,
            },
            namespaces: self.namespaces@,
        }
    }
}

/// Whether `spec` can be started: it needs a program to run.
pub open spec fn process_check(spec: ProcessView) -> Result<(), ErrorView> {
    if spec.argv.len() == 0 {
        Err(ErrorView::Runtime("empty command"@))
    } else {
        Ok(())
    }
}

/// Refuses a process with an empty command line, as starting one does.
pub fn check_process_spec(spec: &ProcessSpec) -> (r: Result<(), GrinddError>)
    ensures
        match r {
            Ok(()) => process_check(spec@) == Ok::<(), ErrorView>(()),
            Err(e) => process_check(spec@) == Err::<(), ErrorView>(e@),
        },
{
    if spec.argv.len() == 0 {
        Err(GrinddError::Runtime(String::from_str("empty command")))
    } else {
        Ok(())
    }
}

/// The root filesystem plan of a started process: enter `root` with
/// `pivot_root` and no bind mounts.
pub open spec fn child_rootfs(root: Seq<char>) -> RootfsView {
    RootfsView { root, use_pivot_root: true, bind_mounts: seq![] }
}

/// How the started process enters its root filesystem: with `pivot_root` and
/// no bind mounts, when it has one.
pub fn child_rootfs_plan(spec: &ProcessSpec) -> (r: Option<RootfsPlan>)
    ensures
        match (r, spec@.rootfs) {
            (Some(p), Some(root)) => p@ == child_rootfs(root),
            (None, None) => true,
            _ => false,
        },
{
    match &spec.rootfs {
        Some(root) => {
            let p = RootfsPlan { root: root.clone(), use_pivot_root: true, bind_mounts: Vec::new() };
            assert(p@.bind_mounts =~= Seq::<crate::rootfs::BindView>::empty());
            Some(p)
        },
        None => None,
    }
}

/// One thing the started process does to itself before it runs its command.
#[derive(Debug)]
pub enum ChildStep {
    /// Leave for new namespaces: a PID, UTS, mount or network namespace for
    /// each flag that is set (in one call).
    Unshare { pid: bool, uts: bool, mount: bool, net: bool },
    /// Set the hostname (in the new UTS namespace).
    SetHostname(String),
    /// Enter the root filesystem of this plan.
    EnterRootfs(RootfsPlan),
    /// Create `/proc` if need be (its failure is ignored) and mount a fresh
    /// `proc` filesystem on it.
    MountProc,
}

/// The model of a `ChildStep`.
pub enum ChildStepView {
    Unshare { pid: bool, uts: bool, mount: bool, net: bool },
    SetHostname(Seq<char>),
    EnterRootfs(RootfsView),
    MountProc,
}

impl View for ChildStep {
    type V = ChildStepView;

    open spec fn view(&self) -> ChildStepView {
        match self {
            ChildStep::Unshare { pid, uts, mount, net } => ChildStepView::Unshare {
                pid: *pid,
                uts: *uts,
                mount: *mount,
                net: *net,
            },
            ChildStep::SetHostname(h) => ChildStepView::SetHostname(h@),
            ChildStep::EnterRootfs(p) => ChildStepView::EnterRootfs(p@),
            ChildStep::MountProc => ChildStepView::MountProc,
        }
    }
}

pub open spec fn child_step_views(v: Seq<ChildStep>) -> Seq<ChildStepView> {
    v.map_values(|s: ChildStep| s@)
}

/// What the process of `p` does to itself before it runs its command, in
/// order: leave for the namespaces it asks for (only when it asks for one),
/// set its hostname (when it has one), enter its root filesystem (when it has
/// one), and mount `/proc` (when asked).
pub open spec fn child_steps(p: ProcessView) -> Seq<ChildStepView> {
    let ns = p.namespaces;
    let unshare: Seq<ChildStepView> = if ns.pid || ns.uts || ns.mount || ns.net {
        seq![ChildStepView::Unshare { pid: ns.pid, uts: ns.uts, mount: ns.mount, net: ns.net }]
    } else {
        seq![]
    };
    let hostname: Seq<ChildStepView> = match ns.hostname {
        Some(h) => seq![ChildStepView::SetHostname(h)],
        None => seq![],
    };
    let rootfs: Seq<ChildStepView> = match p.rootfs {
        Some(root) => seq![ChildStepView::EnterRootfs(child_rootfs(root))],
        None => seq![],
    };
    let proc_fs: Seq<ChildStepView> = if ns.mount_proc {
        seq![ChildStepView::MountProc]
    } else {
        seq![]
    };
    unshare + hostname + rootfs + proc_fs
}

/// What the process of `spec` does to itself, in order, before it runs its
/// command; the caller performs each step in the started process.
pub fn child_setup_steps(spec: &ProcessSpec) -> (r: Vec<ChildStep>)
    ensures
        child_step_views(r@) == child_steps(spec@),
{
    let ns = &spec.namespaces;
    let mut r: Vec<ChildStep> = Vec::new();
    if ns.pid || ns.uts || ns.mount || ns.net {
        r.push(ChildStep::Unshare { pid: ns.pid, uts: ns.uts, mount: ns.mount, net: ns.net });
    }
    if let Some(h) = &ns.hostname {
        r.push(ChildStep::SetHostname(h.clone()));
    }
    if let Some(plan) = child_rootfs_plan(spec) {
        r.push(ChildStep::EnterRootfs(plan));
    }
    if ns.mount_proc {
        r.push(ChildStep::MountProc);
    }
    assert(child_step_views(r@) =~= child_steps(spec@));
    r
}

/// The started process leaves for exactly the namespaces its spec asks for,
/// flag by flag, before anything else: when it asks for any, the first step
/// unshares the PID, UTS, mount and network namespaces each exactly when
/// asked; when it asks for none, no step unshares.
pub proof fn law_unshare_asks_exactly_the_requested_namespaces(p: ProcessView)
    ensures
        ({
            let ns = p.namespaces;
            let steps = child_steps(p);
            &&& (ns.pid || ns.uts || ns.mount || ns.net) ==> steps.len() > 0 && steps[0]
                == ChildStepView::Unshare { pid: ns.pid, uts: ns.uts, mount: ns.mount, net: ns.net }
            &&& forall|k: int|
                0 <= k < steps.len() && (#[trigger] steps[k] is Unshare) ==> k == 0 && steps[k]
                    == ChildStepView::Unshare {
                    pid: ns.pid,
                    uts: ns.uts,
                    mount: ns.mount,
                    net: ns.net,
                } && (ns.pid || ns.uts || ns.mount || ns.net)
        }),
{
}

/// After the namespaces, the started process sets its hostname exactly when
/// it has one, then enters its root filesystem (by `pivot_root`, with no bind
/// mounts) exactly when it has one, then mounts `/proc` exactly when asked,
/// and does nothing else.
pub proof fn law_child_steps_in_order(p: ProcessView)
    ensures
        ({
            let ns = p.namespaces;
            let steps = child_steps(p);
            let u: int = if ns.pid || ns.uts || ns.mount || ns.net {
                1
            } else {
                0
            };
            let h: int = if ns.hostname is Some {
                1
            } else {
                0
            };
            let r: int = if p.rootfs is Some {
                1
            } else {
                0
            };
            let m: int = if ns.mount_proc {
                1
            } else {
                0
            };
            &&& steps.len() == u + h + r + m
            &&& ns.hostname matches Some(name) ==> steps[u] == ChildStepView::SetHostname(name)
            &&& p.rootfs matches Some(root) ==> steps[u + h] == ChildStepView::EnterRootfs(
                RootfsView { root, use_pivot_root: true, bind_mounts: seq![] },
            )
            &&& ns.mount_proc ==> steps[u + h + r] == ChildStepView::MountProc
        }),
{
}

} // verus!
