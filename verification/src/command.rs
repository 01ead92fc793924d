//! Host commands that the engine asks its caller to run, the error each
//! failure is reported with, and how a sequence of host work goes on or stops.

use vstd::prelude::*;

use crate::error::{ErrorView, GrinddError};
use crate::text::views;

verus! {

/// The `Debug` text of a list of strings, as std's formatting writes it.
pub uninterp spec fn debug_strings(items: Seq<Seq<char>>) -> Seq<char>;

/// Formats `items` with `{:?}` (std's `Debug` for a slice of strings).
/// Trusted: the text depends on the strings alone and is named
/// `debug_strings` here; its exact form (brackets, quotes, escapes) is std's
/// and is not stated.
#[verifier::external_body]
pub(crate) fn debug_list(items: &[String]) -> (r: String)
    ensures
        r@ == debug_strings(views(items@)),
{
    format!("{:?}", items)
}

/// A program to run on the host with its arguments, and the error that an
/// unsuccessful run is reported with (`None` when its outcome is ignored).
#[derive(Debug)]
pub struct HostCommand {
    pub program: String,
    pub args: Vec<String>,
    pub on_failure: Option<GrinddError>,
}

/// The model of a `HostCommand`.
#[verifier::ext_equal]
pub struct CommandView {
    pub program: Seq<char>,
    pub args: Seq<Seq<char>>,
    pub on_failure: Option<ErrorView>,
}

impl View for HostCommand {
    type V = CommandView;

    open spec fn view(&self) -> CommandView {
        CommandView {
            program: self.program@,
            args: views(self.args@),
            on_failure: match self.on_failure {
                Some(e) => Some(e@),
                None => None,
            },
        }
    }
}

pub open spec fn command_views(v: Seq<HostCommand>) -> Seq<CommandView> {
    v.map_values(|c: HostCommand| c@)
}

/// How a host command ended.
#[derive(Debug)]
pub enum CommandOutcome {
    /// It ran and exited successfully.
    Succeeded,
    /// It ran and exited unsuccessfully.
    Failed,
    /// It could not be run; the error says why.
    NotRun(GrinddError),
}

/// The model of a `CommandOutcome`.
pub enum OutcomeView {
    Succeeded,
    Failed,
    NotRun(ErrorView),
}

impl View for CommandOutcome {
    type V = OutcomeView;

    open spec fn view(&self) -> OutcomeView {
        match self {
            CommandOutcome::Succeeded => OutcomeView::Succeeded,
            CommandOutcome::Failed => OutcomeView::Failed,
            CommandOutcome::NotRun(e) => OutcomeView::NotRun(e@),
        }
    }
}

/// Whether command `c`, having ended with `o`, stops the commands after it,
/// and with which error: one whose outcome is ignored never does; otherwise
/// an unsuccessful run stops them with the command's own error, and a command
/// that could not be run with the error that says why.
pub open spec fn command_stop(c: CommandView, o: OutcomeView) -> Option<ErrorView> {
    match (c.on_failure, o) {
        (None, _) => None,
        (Some(_), OutcomeView::Succeeded) => None,
        (Some(e), OutcomeView::Failed) => Some(e),
        (Some(_), OutcomeView::NotRun(e)) => Some(e),
    }
}

/// The next thing to do in a sequence of host work (commands, or writes):
/// perform the item at this index, or finish with this result.
#[derive(Debug)]
pub enum SequenceStep {
    Perform(usize),
    Finish(Result<(), GrinddError>),
}

/// The model of a `SequenceStep`.
pub enum SequenceView {
    Perform(nat),
    Finish(Result<(), ErrorView>),
}

impl View for SequenceStep {
    type V = SequenceView;

    open spec fn view(&self) -> SequenceView {
        match self {
            SequenceStep::Perform(i) => SequenceView::Perform(*i as nat),
            SequenceStep::Finish(Ok(())) => SequenceView::Finish(Ok(())),
            SequenceStep::Finish(Err(e)) => SequenceView::Finish(Err(e@)),
        }
    }
}

/// The first step of a sequence of `len` items: the first item, if any.
pub open spec fn sequence_start(len: nat) -> SequenceView {
    if len > 0 {
        SequenceView::Perform(0)
    } else {
        SequenceView::Finish(Ok(()))
    }
}

/// The step after item `index` of a sequence of `len` items was performed:
/// when it stops the sequence, finish with its error; otherwise the next item,
/// or success after the last one.
pub open spec fn sequence_next(stop: Option<ErrorView>, index: nat, len: nat) -> SequenceView {
    match stop {
        Some(e) => SequenceView::Finish(Err(e)),
        None => if index + 1 < len {
            SequenceView::Perform(index + 1)
        } else {
            SequenceView::Finish(Ok(()))
        },
    }
}

/// Following the steps from item `index` of a sequence whose `i`-th item,
/// once performed, stops it with `stops[i]` (or not, when `None`): how many
/// items have been performed in the end, and the result.
pub open spec fn run_sequence(stops: Seq<Option<ErrorView>>, index: nat) -> (nat, Result<(), ErrorView>)
    decreases stops.len() - index,
{
    if index >= stops.len() {
        (index, Ok(()))
    } else {
        match sequence_next(stops[index as int], index, stops.len()) {
            SequenceView::Finish(r) => (index + 1, r),
            SequenceView::Perform(_) => run_sequence(stops, index + 1),
        }
    }
}

/// What stops each command of `cmds` that ended with the outcome at its index.
pub open spec fn command_stops(cmds: Seq<CommandView>, outcomes: Seq<OutcomeView>) -> Seq<
    Option<ErrorView>,
> {
    Seq::new(cmds.len(), |i: int| command_stop(cmds[i], outcomes[i]))
}

/// The first step of a sequence of `len` items.
pub fn first_step(len: usize) -> (r: SequenceStep)
    ensures
        r@ == sequence_start(len as nat),
{
    if len > 0 {
        SequenceStep::Perform(0)
    } else {
        SequenceStep::Finish(Ok(()))
    }
}

/// The step after item `index` of a sequence of `len` items, which stops it
/// with `stop` when that is an error.
pub(crate) fn step_after(stop: Option<GrinddError>, index: usize, len: usize) -> (r: SequenceStep)
    requires
        index < len,
    ensures
        r@ == sequence_next(
            match stop {
                Some(e) => Some(e@),
                None => None,
            },
            index as nat,
            len as nat,
        ),
{
    match stop {
        Some(e) => SequenceStep::Finish(Err(e)),
        None => if index + 1 < len {
            SequenceStep::Perform(index + 1)
        } else {
            SequenceStep::Finish(Ok(()))
        },
    }
}

/// Whether command `cmd`, having ended with `outcome`, stops the commands
/// after it, and with which error.
pub fn command_result(cmd: &HostCommand, outcome: CommandOutcome) -> (r: Option<GrinddError>)
    ensures
        match r {
            Some(e) => command_stop(cmd@, outcome@) == Some(e@),
            None => command_stop(cmd@, outcome@) is None,
        },
{
    match (&cmd.on_failure, outcome) {
        (None, _) => None,
        (Some(_), CommandOutcome::Succeeded) => None,
        (Some(e), CommandOutcome::Failed) => Some(e.duplicate()),
        (Some(_), CommandOutcome::NotRun(e)) => Some(e),
    }
}

/// The step after command `index` of `cmds` ended with `outcome`: the
/// commands run in order, and the first that stops them ends them with its
/// error.
pub fn next_command(cmds: &Vec<HostCommand>, index: usize, outcome: CommandOutcome) -> (r:
    SequenceStep)
    requires
        index < cmds@.len(),
    ensures
        r@ == sequence_next(
            command_stop(cmds@[index as int]@, outcome@),
            index as nat,
            cmds@.len(),
        ),
{
    let stop = command_result(&cmds[index], outcome);
    step_after(stop, index, cmds.len())
}

proof fn lemma_run_sequence_stops(stops: Seq<Option<ErrorView>>, k: nat, i: nat)
    requires
        i <= k < stops.len(),
        forall|j: int| i <= j < k ==> stops[j] is None,
        stops[k as int] is Some,
    ensures
        run_sequence(stops, i) == (k + 1, Err::<(), ErrorView>(stops[k as int]->0)),
    decreases k - i,
{
    if i < k {
        lemma_run_sequence_stops(stops, k, i + 1);
    }
}

proof fn lemma_run_sequence_completes(stops: Seq<Option<ErrorView>>, i: nat)
    requires
        i <= stops.len(),
        forall|j: int| i <= j < stops.len() ==> stops[j] is None,
    ensures
        run_sequence(stops, i) == (stops.len(), Ok::<(), ErrorView>(())),
    decreases stops.len() - i,
{
    if i < stops.len() {
        lemma_run_sequence_completes(stops, i + 1);
    }
}

/// A sequence of host work stops at the first item that fails: that item and
/// the ones before it are performed, none after it, and the sequence ends
/// with that item's error.
pub proof fn law_sequence_stops_at_first_failure(stops: Seq<Option<ErrorView>>, k: nat)
    requires
        k < stops.len(),
        forall|j: int| 0 <= j < k ==> stops[j] is None,
        stops[k as int] is Some,
    ensures
        run_sequence(stops, 0) == (k + 1, Err::<(), ErrorView>(stops[k as int]->0)),
{
    lemma_run_sequence_stops(stops, k, 0);
}

/// When no item of a sequence of host work fails, every item is performed
/// and the sequence succeeds.
pub proof fn law_sequence_without_failure_completes(stops: Seq<Option<ErrorView>>)
    requires
        forall|j: int| 0 <= j < stops.len() ==> stops[j] is None,
    ensures
        run_sequence(stops, 0) == (stops.len(), Ok::<(), ErrorView>(())),
{
    lemma_run_sequence_completes(stops, 0);
}

proof fn lemma_run_sequence_reaches_end(stops: Seq<Option<ErrorView>>, i: nat)
    requires
        i < stops.len(),
        run_sequence(stops, i).0 == stops.len(),
    ensures
        forall|j: int| i <= j < stops.len() - 1 ==> stops[j] is None,
    decreases stops.len() - i,
{
    if i + 1 < stops.len() {
        lemma_run_sequence_reaches_end(stops, i + 1);
    }
}

/// The last item of a sequence of host work is performed only when every
/// item before it went through.
pub proof fn law_last_item_only_after_all_before(stops: Seq<Option<ErrorView>>)
    requires
        stops.len() > 0,
        run_sequence(stops, 0).0 == stops.len(),
    ensures
        forall|j: int| 0 <= j < stops.len() - 1 ==> stops[j] is None,
{
    lemma_run_sequence_reaches_end(stops, 0);
}

} // verus!
