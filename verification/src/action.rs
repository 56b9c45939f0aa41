//! What a run asks of its driver, and what the driver reports back.

use crate::error::Error;
use crate::template::text_of;
use vstd::prelude::*;

verus! {

/// Outside work that the pipeline asks for. The driver performs the action of
/// the current state and reports how it went; the pipeline itself touches
/// neither the network nor the filesystem.
#[derive(Debug, Clone, PartialEq, Eq)]
pub enum Action {
    /// Report the process's working directory.
    ReadWorkingDirectory,
    /// Clone `location` into `staging_path`, which does not exist yet, and
    /// check out `branch`, or the remote's default branch where there is none.
    Fetch { location: String, branch: Option<String>, staging_path: String },
    /// Make sure that nothing exists at `path`, whatever its kind. The action
    /// fails where something does, or where that cannot be told.
    ProbeDestination { path: String },
    /// Copy the directory `from`, under its own name, into the directory `into`.
    CopyDir { from: String, into: String },
    /// Rename the entry `from` to `to`.
    Rename { from: String, to: String },
    /// Remove the directory `path` with everything below it.
    RemoveDir { path: String },
    /// Nothing is left to do but to report success.
    Finish,
    /// The run is over and has succeeded.
    Halt,
    /// The run is over and has failed.
    Abort { error: Error },
}

/// An action as plain text.
pub enum ActionView {
    ReadWorkingDirectory,
    Fetch { location: Seq<char>, branch: Option<Seq<char>>, staging_path: Seq<char> },
    ProbeDestination { path: Seq<char> },
    CopyDir { from: Seq<char>, into: Seq<char> },
    Rename { from: Seq<char>, to: Seq<char> },
    RemoveDir { path: Seq<char> },
    Finish,
    Halt,
    Abort { error: Error },
}

impl ActionView {
    /// The action reaches outside the process.
    pub open spec fn is_outside_work(self) -> bool {
        !(self is Finish || self is Halt || self is Abort)
    }

    /// The action changes the filesystem below the working directory.
    pub open spec fn writes(self) -> bool {
        self is CopyDir || self is Rename || self is RemoveDir
    }
}

impl View for Action {
    type V = ActionView;

    open spec fn view(&self) -> ActionView {
        match *self {
            Action::ReadWorkingDirectory => ActionView::ReadWorkingDirectory,
            Action::Fetch { location, branch, staging_path } => ActionView::Fetch {
                location: location@,
                branch: text_of(branch),
                staging_path: staging_path@,
            },
            Action::ProbeDestination { path } => ActionView::ProbeDestination { path: path@ },
            Action::CopyDir { from, into } => ActionView::CopyDir { from: from@, into: into@ },
            Action::Rename { from, to } => ActionView::Rename { from: from@, to: to@ },
            Action::RemoveDir { path } => ActionView::RemoveDir { path: path@ },
            Action::Finish => ActionView::Finish,
            Action::Halt => ActionView::Halt,
            Action::Abort { error } => ActionView::Abort { error },
        }
    }
}

/// How the action of the current state went.
#[derive(Debug, Clone, PartialEq, Eq)]
pub enum Event {
    /// The working directory, in answer to `ReadWorkingDirectory`.
    WorkingDirectory(String),
    /// The action was carried out.
    Completed,
    /// The action could not be carried out.
    Failed,
}

/// An event as plain text.
pub enum EventView {
    WorkingDirectory(Seq<char>),
    Completed,
    Failed,
}

impl View for Event {
    type V = EventView;

    open spec fn view(&self) -> EventView {
        match *self {
            Event::WorkingDirectory(path) => EventView::WorkingDirectory(path@),
            Event::Completed => EventView::Completed,
            Event::Failed => EventView::Failed,
        }
    }
}

} // verus!
