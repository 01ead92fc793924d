//! The stand-alone host runner: its state directory and the check before it
//! runs a command.

use vstd::prelude::*;
use vstd::string::*;

use crate::paths::{join, path_join};
use crate::text::views;

verus! {

/// Where the host runner keeps its state.
#[derive(Debug, Clone)]
pub struct DaemonConfig {
    pub root_dir: String,
}

impl Default for DaemonConfig {
    /// State under `/var/lib/grindd`.
    fn default() -> (r: Self)
        ensures
            r.root_dir@ == "/var/lib/grindd"@,
    {
        DaemonConfig { root_dir: String::from_str("/var/lib/grindd") }
    }
}

/// What can go wrong in the host runner.
#[derive(Debug)]
pub enum GrinddError {
    Io(String),
    InvalidCommand(String),
}

/// The model of a host runner error.
pub enum HostErrorView {
    Io(Seq<char>),
    InvalidCommand(Seq<char>),
}

impl View for GrinddError {
    type V = HostErrorView;

    open spec fn view(&self) -> HostErrorView {
        match self {
            GrinddError::Io(m) => HostErrorView::Io(m@),
            GrinddError::InvalidCommand(m) => HostErrorView::InvalidCommand(m@),
        }
    }
}

/// The directories of the state directory, in the order the caller creates them:
/// `containers`, `images`, `runtime`.
pub fn ensure_root_layout(config: &DaemonConfig) -> (r: Vec<String>)
    ensures
        views(r@) == seq![
            path_join(config.root_dir@, "containers"@),
            path_join(config.root_dir@, "images"@),
            path_join(config.root_dir@, "runtime"@),
        ],
{
    let root = config.root_dir.as_str();
    let mut r: Vec<String> = Vec::new();
    r.push(join(root, "containers"));
    r.push(join(root, "images"));
    r.push(join(root, "runtime"));
    assert(views(r@) =~= seq![
        path_join(config.root_dir@, "containers"@),
        path_join(config.root_dir@, "images"@),
        path_join(config.root_dir@, "runtime"@),
    ]);
    r
}

/// Refuses an empty command line before it is run.
pub fn check_host_command(cmd: &Vec<String>) -> (r: Result<(), GrinddError>)
    ensures
        r is Ok <==> cmd@.len() > 0,
        r matches Err(e) ==> e@ == HostErrorView::InvalidCommand(
            "run requires at least one argument"@,
        ),
{
    if cmd.len() == 0 {
        Err(GrinddError::InvalidCommand(String::from_str("run requires at least one argument")))
    } else {
        Ok(())
    }
}

} // verus!
