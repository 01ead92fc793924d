//! The lifecycle explanation of a container.

use vstd::prelude::*;
use vstd::string::*;

verus! {

/// One phase of a container's lifecycle and what happens in it.
#[derive(Debug, Clone)]
pub struct ExplainStep {
    pub phase: u8,
    pub subsystem: String,
    pub detail: String,
}

/// The lifecycle plan of a container, phase by phase.
#[derive(Debug, Clone)]
pub struct ExplainReport {
    pub container_id: String,
    pub steps: Vec<ExplainStep>,
}

/// The model of an `ExplainStep`.
pub struct StepView {
    pub phase: u8,
    pub subsystem: Seq<char>,
    pub detail: Seq<char>,
}

impl View for ExplainStep {
    type V = StepView;

    open spec fn view(&self) -> StepView {
        StepView { phase: self.phase, subsystem: self.subsystem@, detail: self.detail@ }
    }
}

pub open spec fn step_views(v: Seq<ExplainStep>) -> Seq<StepView> {
    v.map_values(|s: ExplainStep| s@)
}

/// The phases every container goes through, in order.
pub open spec fn lifecycle_steps() -> Seq<StepView> {
    seq![
        StepView {
            phase: 2,
            subsystem: "runtime"@,
            detail: "PID/UTS/Mount namespace plan prepared"@,
        },
        StepView { phase: 3, subsystem: "rootfs"@, detail: "pivot_root/chroot workflow prepared"@ },
        StepView {
            phase: 5,
            subsystem: "cgroups"@,
            detail: "memory.max and cpu.max will be written"@,
        },
        StepView {
            phase: 7,
            subsystem: "storage"@,
            detail: "overlayfs lower/upper/work/merged directories configured"@,
        },
        StepView {
            phase: 9,
            subsystem: "network"@,
            detail: "bridge, veth, netns and NAT configuration planned"@,
        },
    ]
}

fn step(phase: u8, subsystem: &str, detail: &str) -> (r: ExplainStep)
    ensures
        r@ == (StepView { phase, subsystem: subsystem@, detail: detail@ }),
{
    ExplainStep { phase, subsystem: String::from_str(subsystem), detail: String::from_str(detail) }
}

/// The lifecycle report of container `container_id`.
pub fn build_explain_report(container_id: &str) -> (r: ExplainReport)
    ensures
        r.container_id@ == container_id@,
        step_views(r.steps@) == lifecycle_steps(),
{
    let mut steps: Vec<ExplainStep> = Vec::new();
    steps.push(step(2, "runtime", "PID/UTS/Mount namespace plan prepared"));
    steps.push(step(3, "rootfs", "pivot_root/chroot workflow prepared"));
    steps.push(step(5, "cgroups", "memory.max and cpu.max will be written"));
    steps.push(step(7, "storage", "overlayfs lower/upper/work/merged directories configured"));
    steps.push(step(9, "network", "bridge, veth, netns and NAT configuration planned"));
    assert(step_views(steps@) =~= lifecycle_steps());
    ExplainReport { container_id: String::from_str(container_id), steps }
}

} // verus!
