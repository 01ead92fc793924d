//! cgroup v2 groups: where a group lives and which files set its limits.

use vstd::prelude::*;
use vstd::string::*;

use crate::command::{sequence_next, step_after, SequenceStep};
use crate::error::{ErrorView, GrinddError};
use crate::paths::{join, path_join};
use crate::text::concat;
use crate::text::{decimal, decimal_string};

verus! {

/// Resource limits for a group. `None` leaves a limit unset.
#[derive(Debug, Clone, Copy)]
pub struct CgroupLimits {
    pub memory_max: Option<u64>,
    pub cpu_max_quota: Option<u64>,
    pub cpu_max_period: Option<u64>,
}

impl Default for CgroupLimits {
    /// No limits.
    fn default() -> (r: Self)
        ensures
            r.memory_max is None,
            r.cpu_max_quota is None,
            r.cpu_max_period is None,
    {
        CgroupLimits { memory_max: None, cpu_max_quota: None, cpu_max_period: None }
    }
}

/// A file of a group to write, and the message that a failed write is
/// reported with (followed by the cause).
#[derive(Debug)]
pub struct CgroupWrite {
    pub path: String,
    pub contents: String,
    pub failure: String,
}

/// The model of a `CgroupWrite`.
pub struct WriteView {
    pub path: Seq<char>,
    pub contents: Seq<char>,
    pub failure: Seq<char>,
}

impl View for CgroupWrite {
    type V = WriteView;

    open spec fn view(&self) -> WriteView {
        WriteView { path: self.path@, contents: self.contents@, failure: self.failure@ }
    }
}

pub open spec fn write_views(v: Seq<CgroupWrite>) -> Seq<WriteView> {
    v.map_values(|w: CgroupWrite| w@)
}

/// How a write of a group file ended.
#[derive(Debug)]
pub enum WriteOutcome {
    /// The file was written.
    Written,
    /// The write failed; the text says why.
    Failed(String),
}

/// The model of a `WriteOutcome`.
pub enum WriteOutcomeView {
    Written,
    Failed(Seq<char>),
}

impl View for WriteOutcome {
    type V = WriteOutcomeView;

    open spec fn view(&self) -> WriteOutcomeView {
        match self {
            WriteOutcome::Written => WriteOutcomeView::Written,
            WriteOutcome::Failed(cause) => WriteOutcomeView::Failed(cause@),
        }
    }
}

/// Whether write `w`, having ended with `o`, stops the writes after it: a
/// failed write does, with a cgroup error of its failure message, ": " and
/// the cause.
pub open spec fn write_stop(w: WriteView, o: WriteOutcomeView) -> Option<ErrorView> {
    match o {
        WriteOutcomeView::Written => None,
        WriteOutcomeView::Failed(cause) => Some(ErrorView::Cgroup(w.failure + ": "@ + cause)),
    }
}

/// What stops each write of `writes` that ended with the outcome at its index.
pub open spec fn write_stops(writes: Seq<WriteView>, outcomes: Seq<WriteOutcomeView>) -> Seq<
    Option<ErrorView>,
> {
    Seq::new(writes.len(), |i: int| write_stop(writes[i], outcomes[i]))
}

/// The step after write `index` of `writes` ended with `outcome`: the writes
/// are performed in order, and the first that fails ends them with a cgroup
/// error.
pub fn next_write(writes: &Vec<CgroupWrite>, index: usize, outcome: WriteOutcome) -> (r:
    SequenceStep)
    requires
        index < writes@.len(),
    ensures
        r@ == sequence_next(
            write_stop(writes@[index as int]@, outcome@),
            index as nat,
            writes@.len(),
        ),
{
    let stop = match outcome {
        WriteOutcome::Written => None,
        WriteOutcome::Failed(cause) => {
            let mut message = concat(writes[index].failure.as_str(), ": ");
            message.append(cause.as_str());
            Some(GrinddError::Cgroup(message))
        },
    };
    step_after(stop, index, writes.len())
}

/// The period written to `cpu.max` when the limits give none.
pub open spec fn default_cpu_period() -> nat {
    100000
}

/// The writes that set `limits` on the group at `group`: `memory.max` when a
/// memory limit is set, then `cpu.max` ("quota period") when a quota is set.
pub open spec fn limit_writes(group: Seq<char>, limits: CgroupLimits) -> Seq<WriteView> {
    let memory: Seq<WriteView> = match limits.memory_max {
        Some(m) => seq![
            WriteView {
                path: path_join(group, "memory.max"@),
                contents: decimal(m as nat),
                failure: "write memory.max failed"@,
            },
        ],
        None => seq![],
    };
    let cpu: Seq<WriteView> = match limits.cpu_max_quota {
        Some(q) => {
            let period: nat = match limits.cpu_max_period {
                Some(p) => p as nat,
                None => default_cpu_period(),
            };
            seq![
                WriteView {
                    path: path_join(group, "cpu.max"@),
                    contents: decimal(q as nat) + " "@ + decimal(period),
                    failure: "write cpu.max failed"@,
                },
            ]
        },
        None => seq![],
    };
    memory + cpu
}

/// The write that moves process `pid` into the group at `group`.
pub open spec fn pid_write(group: Seq<char>, pid: u32) -> WriteView {
    WriteView {
        path: path_join(group, "cgroup.procs"@),
        contents: decimal(pid as nat),
        failure: "attach pid failed"@,
    }
}

/// The cgroup v2 hierarchy rooted at `root`.
#[derive(Debug, Clone)]
pub struct CgroupV2Manager {
    pub root: String,
}

impl Default for CgroupV2Manager {
    /// The hierarchy at `/sys/fs/cgroup`.
    fn default() -> (r: Self)
        ensures
            r.root@ == "/sys/fs/cgroup"@,
    {
        CgroupV2Manager { root: String::from_str("/sys/fs/cgroup") }
    }
}

impl CgroupV2Manager {
    /// The directory of the group `name`; the caller creates it.
    pub fn create_group(&self, name: &str) -> (r: String)
        ensures
            r@ == path_join(self.root@, name@),
    {
        join(self.root.as_str(), name)
    }

    /// The writes that set `limits` on the group at `group`, in the order the
    /// caller performs them.
    pub fn apply_limits(&self, group: &str, limits: &CgroupLimits) -> (r: Vec<CgroupWrite>)
        ensures
            write_views(r@) == limit_writes(group@, *limits),
    {
        let mut r: Vec<CgroupWrite> = Vec::new();
        if let Some(memory) = limits.memory_max {
            r.push(
                CgroupWrite {
                    path: join(group, "memory.max"),
                    contents: decimal_string(memory),
                    failure: String::from_str("write memory.max failed"),
                },
            );
        }
        let ghost after_memory = write_views(r@);
        if let Some(quota) = limits.cpu_max_quota {
            let period = match limits.cpu_max_period {
                Some(p) => p,
                None => 100000,
            };
            let mut contents = decimal_string(quota);
            contents.append(" ");
            let period_text = decimal_string(period);
            contents.append(period_text.as_str());
            let w = CgroupWrite {
                path: join(group, "cpu.max"),
                contents,
                failure: String::from_str("write cpu.max failed"),
            };
            let ghost before = r@;
            r.push(w);
            assert(write_views(r@) =~= write_views(before).push(w@));
        }
        assert(write_views(r@) =~= limit_writes(group@, *limits));
        r
    }

    /// The write that moves process `pid` into the group at `group`.
    pub fn attach_pid(&self, group: &str, pid: u32) -> (r: CgroupWrite)
        ensures
            r@ == pid_write(group@, pid),
    {
        CgroupWrite {
            path: join(group, "cgroup.procs"),
            contents: decimal_string(pid as u64),
            failure: String::from_str("attach pid failed"),
        }
    }
}

} // verus!
