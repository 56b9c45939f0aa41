//! The run as a state machine. The pipeline decides; its driver does the
//! outside work: it performs the action of the current state, reports the
//! outcome as an event, and goes on until the action is `Halt` or `Abort`.

use crate::action::{Action, ActionView, Event, EventView};
use crate::context::{ContextView, RunContext};
use crate::error::Error;
use crate::materialize::{fault_of, metadata_name, Step};
use crate::path::{final_component_of, joined};
use crate::resolver::{entry_of, resolve, table_entries, TemplateTable};
use crate::template::{clone_text, EntryView, TemplateEntry};
use crate::workspace::{
    allocate, is_staging_path, lemma_staging_path_lies_in_the_root, staging_root,
};
use vstd::prelude::*;

verus! {

/// How far a run has come.
#[derive(Debug, Clone, Copy, PartialEq, Eq, Structural)]
pub enum Stage {
    /// The template is known; the working directory is not.
    Start,
    /// The context is complete; the repository is being fetched.
    Resolved,
    /// The repository is staged; it is being materialized.
    Staged,
    /// The destination is in place.
    Materialized,
    /// The run has succeeded.
    Done,
    /// The run has failed.
    Failed,
}

impl Stage {
    /// The position of a stage on the one path from `Start` to `Done`;
    /// failure, which every stage before `Done` can end in, comes last.
    pub open spec fn rank(self) -> nat {
        match self {
            Stage::Start => 0,
            Stage::Resolved => 1,
            Stage::Staged => 2,
            Stage::Materialized => 3,
            Stage::Done => 4,
            Stage::Failed => 5,
        }
    }
}

/// The state of a run as plain text.
pub enum PipelineView {
    Start { entry: EntryView, staging_path: Seq<char>, destination_name: Seq<char> },
    Resolved { context: ContextView },
    Staged { context: ContextView, step: Step },
    Materialized,
    Done,
    Failed { error: Error },
}

impl PipelineView {
    pub open spec fn stage(self) -> Stage {
        match self {
            PipelineView::Start { .. } => Stage::Start,
            PipelineView::Resolved { .. } => Stage::Resolved,
            PipelineView::Staged { .. } => Stage::Staged,
            PipelineView::Materialized => Stage::Materialized,
            PipelineView::Done => Stage::Done,
            PipelineView::Failed { .. } => Stage::Failed,
        }
    }

    /// Nothing can change the state any more.
    pub open spec fn is_terminal(self) -> bool {
        self is Done || self is Failed
    }

    /// The context of the state, where it has one, keeps the staging path
    /// apart from the working directory and from the destination path.
    pub open spec fn is_isolated(self) -> bool {
        match self {
            PipelineView::Resolved { context } => context.is_isolated(),
            PipelineView::Staged { context, .. } => context.is_isolated(),
            _ => true,
        }
    }

    /// The action that the driver is to perform in this state.
    pub open spec fn action(self) -> ActionView {
        match self {
            PipelineView::Start { .. } => ActionView::ReadWorkingDirectory,
            PipelineView::Resolved { context } => ActionView::Fetch {
                location: context.location,
                branch: context.branch,
                staging_path: context.staging_path,
            },
            PipelineView::Staged { context, step } => context.step_action(step),
            PipelineView::Materialized => ActionView::Finish,
            PipelineView::Done => ActionView::Halt,
            PipelineView::Failed { error } => ActionView::Abort { error },
        }
    }

    /// The error that the run ends with where the state's action does not
    /// succeed.
    pub open spec fn fault(self) -> Error
        recommends
            self is Start || self is Resolved || self is Staged,
    {
        match self {
            PipelineView::Start { .. } => Error::WorkingDirectoryUnavailable,
            PipelineView::Staged { step, .. } => fault_of(step),
            _ => Error::FetchFailure,
        }
    }

    /// Whether `event` lets the run go on from this state. A working
    /// directory does where it leaves the staging path isolated; `Completed`
    /// does for the fetch and for every step of materialization; finishing
    /// cannot fail.
    pub open spec fn is_success(self, event: EventView) -> bool {
        match self {
            PipelineView::Start { entry, staging_path, destination_name } => {
                event matches EventView::WorkingDirectory(working_directory) && ContextView::of(
                    entry,
                    staging_path,
                    destination_name,
                    working_directory,
                ).is_isolated()
            },
            PipelineView::Resolved { .. } | PipelineView::Staged { .. } => event is Completed,
            _ => true,
        }
    }

    /// The state after `event`. A run is a single attempt: what is not the
    /// success of the pending action ends it with that action's error, and a
    /// terminal state stays as it is. A working directory that is the
    /// staging path, lies in it or holds it is as good as none.
    pub open spec fn next(self, event: EventView) -> PipelineView {
        if !self.is_success(event) {
            PipelineView::Failed { error: self.fault() }
        } else {
            match self {
                PipelineView::Start { entry, staging_path, destination_name } => {
                    PipelineView::Resolved {
                        context: ContextView::of(
                            entry,
                            staging_path,
                            destination_name,
                            event->WorkingDirectory_0,
                        ),
                    }
                },
                PipelineView::Resolved { context } => PipelineView::Staged {
                    context,
                    step: Step::Probe,
                },
                PipelineView::Staged { context, step } => match context.step_after(step) {
                    Some(following) => PipelineView::Staged { context, step: following },
                    None => PipelineView::Materialized,
                },
                PipelineView::Materialized => PipelineView::Done,
                PipelineView::Done => PipelineView::Done,
                PipelineView::Failed { error } => PipelineView::Failed { error },
            }
        }
    }

    /// The state after all of `events`, in their order.
    pub open spec fn run(self, events: Seq<EventView>) -> PipelineView
        decreases events.len(),
    {
        if events.len() == 0 {
            self
        } else {
            self.run(events.drop_last()).next(events.last())
        }
    }
}

enum State {
    Start { entry: TemplateEntry, staging_path: String, destination_name: String },
    Resolved { context: RunContext },
    Staged { context: RunContext, step: Step },
    Materialized,
    Done,
    Failed { error: Error },
}

/// One run, from a known template to its end.
pub struct Pipeline {
    state: State,
}

impl View for Pipeline {
    type V = PipelineView;

    closed spec fn view(&self) -> PipelineView {
        match self.state {
            State::Start { entry, staging_path, destination_name } => PipelineView::Start {
                entry: entry@,
                staging_path: staging_path@,
                destination_name: destination_name@,
            },
            State::Resolved { context } => PipelineView::Resolved { context: context@ },
            State::Staged { context, step } => PipelineView::Staged { context: context@, step },
            State::Materialized => PipelineView::Materialized,
            State::Done => PipelineView::Done,
            State::Failed { error } => PipelineView::Failed { error },
        }
    }
}

impl Pipeline {
    /// A run of the template that `identifier` names in `table`. The
    /// identifier is looked up first: where the table does not hold it, the
    /// run has failed before any outside work is asked for. Otherwise a
    /// staging path is allocated, and the run begins.
    pub fn start(table: &TemplateTable, identifier: &str, destination_name: String) -> (pipeline:
        Pipeline)
        ensures
            match pipeline@ {
                PipelineView::Start { entry, staging_path, destination_name: name } => {
                    &&& table_entries(*table).contains_key(identifier@)
                    &&& entry == entry_of(table_entries(*table)[identifier@])
                    &&& is_staging_path(staging_path)
                    &&& name == destination_name@
                },
                PipelineView::Failed { error } => {
                    &&& error == Error::UnknownTemplate
                    &&& !table_entries(*table).contains_key(identifier@)
                },
                _ => false,
            },
    {
        match resolve(table, identifier) {
            Ok(entry) => Pipeline::begin(entry, allocate(), destination_name),
            Err(error) => Pipeline::failed(error),
        }
    }

    /// A run of `entry` that will stage the repository at `staging_path` and
    /// leave the result under `destination_name`.
    pub fn begin(entry: TemplateEntry, staging_path: String, destination_name: String) -> (pipeline:
        Pipeline)
        ensures
            pipeline@ == (PipelineView::Start {
                entry: entry@,
                staging_path: staging_path@,
                destination_name: destination_name@,
            }),
    {
        Pipeline { state: State::Start { entry, staging_path, destination_name } }
    }

    /// A run that has ended with `error` before it began.
    pub fn failed(error: Error) -> (pipeline: Pipeline)
        ensures
            pipeline@ == (PipelineView::Failed { error }),
    {
        Pipeline { state: State::Failed { error } }
    }

    /// How far the run has come. Whatever the stage, the staging path is
    /// apart from the working directory and from the destination path.
    pub fn stage(&self) -> (stage: Stage)
        ensures
            stage == self@.stage(),
            self@.is_isolated(),
    {
        match &self.state {
            State::Start { .. } => Stage::Start,
            State::Resolved { context } => {
                proof {
                    use_type_invariant(context);
                }
                Stage::Resolved
            },
            State::Staged { context, .. } => {
                proof {
                    use_type_invariant(context);
                }
                Stage::Staged
            },
            State::Materialized => Stage::Materialized,
            State::Done => Stage::Done,
            State::Failed { .. } => Stage::Failed,
        }
    }

    /// The error that the run has failed with, if it has.
    pub fn error(&self) -> (error: Option<Error>)
        ensures
            match error {
                Some(e) => self@ == (PipelineView::Failed { error: e }),
                None => !(self@ is Failed),
            },
    {
        match &self.state {
            State::Failed { error } => Some(*error),
            _ => None,
        }
    }

    /// The action that the driver is to perform now.
    pub fn action(&self) -> (action: Action)
        ensures
            action@ == self@.action(),
    {
        match &self.state {
            State::Start { .. } => Action::ReadWorkingDirectory,
            State::Resolved { context } => Action::Fetch {
                location: context.location().clone(),
                branch: clone_text(context.branch()),
                staging_path: context.staging_path().clone(),
            },
            State::Staged { context, step } => context.step_action(*step),
            State::Materialized => Action::Finish,
            State::Done => Action::Halt,
            State::Failed { error } => Action::Abort { error: *error },
        }
    }

    /// The run after `event`, which reports how the current action went.
    pub fn advance(self, event: Event) -> (next: Pipeline)
        ensures
            next@ == self@.next(event@),
            next@.is_isolated(),
    {
        match self.state {
            State::Start { entry, staging_path, destination_name } => match event {
                Event::WorkingDirectory(path) => match RunContext::new(
                    entry,
                    staging_path,
                    destination_name,
                    path,
                ) {
                    Ok(context) => Pipeline { state: State::Resolved { context } },
                    Err(error) => Pipeline::failed(error),
                },
                _ => Pipeline::failed(Error::WorkingDirectoryUnavailable),
            },
            State::Resolved { context } => match event {
                Event::Completed => {
                    proof {
                        use_type_invariant(&context);
                    }
                    Pipeline { state: State::Staged { context, step: Step::first() } }
                },
                _ => Pipeline::failed(Error::FetchFailure),
            },
            State::Staged { context, step } => match event {
                Event::Completed => match context.step_after(step) {
                    Some(following) => {
                        proof {
                            use_type_invariant(&context);
                        }
                        Pipeline { state: State::Staged { context, step: following } }
                    },
                    None => Pipeline { state: State::Materialized },
                },
                _ => Pipeline::failed(step.fault()),
            },
            State::Materialized => Pipeline { state: State::Done },
            State::Done => Pipeline { state: State::Done },
            State::Failed { error } => Pipeline { state: State::Failed { error } },
        }
    }
}

/// A run that has ended stays as it ended, whatever is reported to it.
pub proof fn lemma_terminal_state_is_absorbing(state: PipelineView, events: Seq<EventView>)
    requires
        state.is_terminal(),
    ensures
        state.run(events) == state,
    decreases events.len(),
{
    if events.len() > 0 {
        lemma_terminal_state_is_absorbing(state, events.drop_last());
    }
}

/// A run that failed asks for no outside work, then or ever after: its
/// action is to abort with the error it failed with. Together with what
/// `Pipeline::start` ensures, an unknown identifier therefore causes no
/// network or filesystem activity.
pub proof fn lemma_failed_run_asks_for_nothing(error: Error, events: Seq<EventView>)
    ensures
        (PipelineView::Failed { error }).run(events).action() == (ActionView::Abort { error }),
        !(PipelineView::Failed { error }).run(events).action().is_outside_work(),
{
    lemma_terminal_state_is_absorbing(PipelineView::Failed { error }, events);
}

/// The staging path stays isolated: an event leads from an isolated state
/// to an isolated state.
pub proof fn lemma_next_keeps_staging_isolated(state: PipelineView, event: EventView)
    requires
        state.is_isolated(),
    ensures
        state.next(event).is_isolated(),
{
}

/// In every state that a run reaches from its start, the staging path is
/// apart from the working directory and from the destination path: it is
/// neither of them, nor above or below either. A working directory of which
/// that does not hold ends the run before anything is fetched.
pub proof fn lemma_run_keeps_staging_isolated(
    entry: EntryView,
    staging_path: Seq<char>,
    destination_name: Seq<char>,
    events: Seq<EventView>,
)
    ensures
        (PipelineView::Start { entry, staging_path, destination_name }).run(events).is_isolated(),
    decreases events.len(),
{
    let start = PipelineView::Start { entry, staging_path, destination_name };
    if events.len() > 0 {
        lemma_run_keeps_staging_isolated(entry, staging_path, destination_name, events.drop_last());
        lemma_next_keeps_staging_isolated(start.run(events.drop_last()), events.last());
    }
}

/// A working directory that is the staging path, lies in it or holds it ends
/// the run as an unreadable one does: nothing is fetched.
pub proof fn lemma_overlapping_working_directory_ends_run(
    entry: EntryView,
    staging_path: Seq<char>,
    destination_name: Seq<char>,
    working_directory: Seq<char>,
)
    requires
        !ContextView::of(entry, staging_path, destination_name, working_directory).is_isolated(),
    ensures
        (PipelineView::Start { entry, staging_path, destination_name }).next(
            EventView::WorkingDirectory(working_directory),
        ) == (PipelineView::Failed { error: Error::WorkingDirectoryUnavailable }),
{
}

/// The staging root is no working directory for a run that `Pipeline::start`
/// began: the staging path lies in it.
pub proof fn lemma_staging_root_is_refused(
    entry: EntryView,
    staging_path: Seq<char>,
    destination_name: Seq<char>,
)
    requires
        is_staging_path(staging_path),
    ensures
        (PipelineView::Start { entry, staging_path, destination_name }).next(
            EventView::WorkingDirectory(staging_root()),
        ) == (PipelineView::Failed { error: Error::WorkingDirectoryUnavailable }),
{
    lemma_staging_path_lies_in_the_root(staging_path);
}

/// The run is linear: an event leaves the stage as it is, moves it one
/// stage on, or ends the run in failure. No stage is ever gone back to, and
/// none is skipped.
pub proof fn lemma_stages_advance_in_order(state: PipelineView, event: EventView)
    ensures
        ({
            let before = state.stage();
            let after = state.next(event).stage();
            ||| after == before
            ||| after.rank() == before.rank() + 1 && after != Stage::Failed
            ||| after == Stage::Failed && !state.is_terminal()
        }),
        state.stage().rank() <= state.next(event).stage().rank(),
{
}

/// No stage is ever gone back to in the course of a run.
pub proof fn lemma_run_never_goes_back(state: PipelineView, events: Seq<EventView>)
    ensures
        state.stage().rank() <= state.run(events).stage().rank(),
    decreases events.len(),
{
    if events.len() > 0 {
        lemma_run_never_goes_back(state, events.drop_last());
        lemma_stages_advance_in_order(state.run(events.drop_last()), events.last());
    }
}

/// A step that does not succeed ends the run with that step's error, and
/// the steps after it are never asked for: a failed fetch is a fetch
/// failure, a destination that is taken a rename fault, a failed copy a copy
/// fault, a failed rename a rename fault, a failed removal of the metadata a
/// metadata-removal fault.
pub proof fn lemma_failure_ends_run(state: PipelineView, event: EventView, later: Seq<EventView>)
    requires
        state is Start || state is Resolved || state is Staged,
        !state.is_success(event),
    ensures
        state.next(event) == (PipelineView::Failed { error: state.fault() }),
        state.next(event).run(later) == state.next(event),
        state is Start ==> state.fault() == Error::WorkingDirectoryUnavailable,
        state is Resolved ==> state.fault() == Error::FetchFailure,
        state matches PipelineView::Staged { step, .. } ==> state.fault() == fault_of(step),
{
    lemma_terminal_state_is_absorbing(state.next(event), later);
}

/// Where the destination is reported as taken, the run fails with a rename
/// fault, and nothing has been asked for that writes below the working
/// directory: up to then the working directory was read, the repository
/// fetched into the staging path and the destination looked at, and from
/// then on the run only aborts. What was there is never copied over,
/// renamed or removed.
pub proof fn lemma_taken_destination_is_left_alone(
    entry: EntryView,
    staging_path: Seq<char>,
    destination_name: Seq<char>,
    working_directory: Seq<char>,
    outcome: EventView,
    later: Seq<EventView>,
)
    requires
        ContextView::of(entry, staging_path, destination_name, working_directory).is_isolated(),
        !(outcome is Completed),
    ensures
        ({
            let start = PipelineView::Start { entry, staging_path, destination_name };
            let resolved = start.next(EventView::WorkingDirectory(working_directory));
            let staged = resolved.next(EventView::Completed);
            let ended = staged.next(outcome);
            &&& !start.action().writes()
            &&& !resolved.action().writes()
            &&& staged.action() == (ActionView::ProbeDestination {
                path: joined(working_directory, destination_name),
            })
            &&& ended == (PipelineView::Failed { error: Error::RenameFault })
            &&& ended.run(later) == ended
            &&& !ended.run(later).action().writes()
        }),
{
    let start = PipelineView::Start { entry, staging_path, destination_name };
    let ended = start.next(EventView::WorkingDirectory(working_directory)).next(
        EventView::Completed,
    ).next(outcome);
    lemma_terminal_state_is_absorbing(ended, later);
}

/// The run of a template without a subdirectory, where every action
/// succeeds: the working directory is read, the repository is fetched into
/// the staging path, the destination is found free, the staged tree is
/// copied into the working directory, the copy, which bears the staging
/// path's own name, is renamed to the destination name, and the metadata
/// directory is removed from the result. The destination's name is the one
/// asked for, whatever the repository is called.
pub proof fn lemma_whole_tree_run(
    entry: EntryView,
    staging_path: Seq<char>,
    destination_name: Seq<char>,
    working_directory: Seq<char>,
)
    requires
        entry.subdirectory is None,
        ContextView::of(entry, staging_path, destination_name, working_directory).is_isolated(),
    ensures
        ({
            let start = PipelineView::Start { entry, staging_path, destination_name };
            let resolved = start.next(EventView::WorkingDirectory(working_directory));
            let staged = resolved.next(EventView::Completed);
            let probed = staged.next(EventView::Completed);
            let copied = probed.next(EventView::Completed);
            let renamed = copied.next(EventView::Completed);
            let stripped = renamed.next(EventView::Completed);
            let destination = joined(working_directory, destination_name);
            &&& start.action() == ActionView::ReadWorkingDirectory
            &&& resolved.action() == (ActionView::Fetch {
                location: entry.location,
                branch: entry.branch,
                staging_path,
            })
            &&& staged.action() == (ActionView::ProbeDestination { path: destination })
            &&& probed.action() == (ActionView::CopyDir {
                from: staging_path,
                into: working_directory,
            })
            &&& copied.action() == (ActionView::Rename {
                from: joined(working_directory, final_component_of(staging_path)),
                to: destination,
            })
            &&& renamed.action() == (ActionView::RemoveDir {
                path: joined(destination, metadata_name()),
            })
            &&& stripped == PipelineView::Materialized
            &&& stripped.action() == ActionView::Finish
            &&& stripped.next(EventView::Completed) == PipelineView::Done
        }),
{
}

/// The run of a template with a subdirectory, where every action succeeds:
/// the working directory is read, the repository is fetched into the staging
/// path, the destination is found free, the subdirectory of the staged tree,
/// and nothing else, is copied into the working directory, and the copy,
/// which bears the subdirectory's base name, is renamed to the destination
/// name. Nothing is removed.
pub proof fn lemma_subtree_run(
    entry: EntryView,
    staging_path: Seq<char>,
    destination_name: Seq<char>,
    working_directory: Seq<char>,
)
    requires
        entry.subdirectory is Some,
        ContextView::of(entry, staging_path, destination_name, working_directory).is_isolated(),
    ensures
        ({
            let subdirectory = entry.subdirectory->Some_0;
            let start = PipelineView::Start { entry, staging_path, destination_name };
            let resolved = start.next(EventView::WorkingDirectory(working_directory));
            let staged = resolved.next(EventView::Completed);
            let probed = staged.next(EventView::Completed);
            let copied = probed.next(EventView::Completed);
            let renamed = copied.next(EventView::Completed);
            let destination = joined(working_directory, destination_name);
            &&& start.action() == ActionView::ReadWorkingDirectory
            &&& resolved.action() == (ActionView::Fetch {
                location: entry.location,
                branch: entry.branch,
                staging_path,
            })
            &&& staged.action() == (ActionView::ProbeDestination { path: destination })
            &&& probed.action() == (ActionView::CopyDir {
                from: joined(staging_path, subdirectory),
                into: working_directory,
            })
            &&& copied.action() == (ActionView::Rename {
                from: joined(working_directory, final_component_of(subdirectory)),
                to: destination,
            })
            &&& renamed == PipelineView::Materialized
            &&& renamed.action() == ActionView::Finish
            &&& renamed.next(EventView::Completed) == PipelineView::Done
        }),
{
}

} // verus!
