//! Materialization: once the destination is known to be free, the staged
//! payload is copied into the working directory, renamed to the destination
//! name and, where the whole tree was copied, stripped of its version-control
//! metadata.

use crate::action::{Action, ActionView};
use crate::context::{ContextView, RunContext};
use crate::error::Error;
use crate::path::{
    are_apart, final_component, final_component_of, is_skipped, is_within, join, joined,
    lemma_apart_from_entries, lemma_final_component_below,
};
use vstd::prelude::*;
use vstd::string::*;

verus! {

/// The steps of materialization, in the order in which they run. Each is a
/// failure point of its own, and no step undoes an earlier one.
#[derive(Debug, Clone, Copy, PartialEq, Eq, Structural)]
pub enum Step {
    /// The destination is looked at: it must not exist yet.
    Probe,
    Copy,
    Rename,
    StripMetadata,
}

/// The directory that holds a repository's version-control metadata.
pub open spec fn metadata_name() -> Seq<char> {
    ".git"@
}

/// The error that a failure of `step` surfaces as. A destination that is
/// taken is a rename fault: it is the rename that would have had to
/// overwrite it.
pub open spec fn fault_of(step: Step) -> Error {
    match step {
        Step::Probe => Error::RenameFault,
        Step::Copy => Error::CopyFault,
        Step::Rename => Error::RenameFault,
        Step::StripMetadata => Error::MetadataRemovalFault,
    }
}

impl ContextView {
    /// The directory that is copied: the named subdirectory of the staged
    /// tree, or the whole staged tree.
    pub open spec fn payload_path(self) -> Seq<char> {
        match self.subdirectory {
            Some(subdirectory) => joined(self.staging_path, subdirectory),
            None => self.staging_path,
        }
    }

    /// The name under which the copy arrives in the working directory: the
    /// base name of the subdirectory, or the staging path's own name.
    pub open spec fn payload_name(self) -> Seq<char> {
        match self.subdirectory {
            Some(subdirectory) => final_component_of(subdirectory),
            None => final_component_of(self.staging_path),
        }
    }

    /// The step that follows `step`, if any. Metadata is stripped only where
    /// the whole tree was copied: a subdirectory's copy does not carry the
    /// metadata directory at its root.
    pub open spec fn step_after(self, step: Step) -> Option<Step> {
        match step {
            Step::Probe => Some(Step::Copy),
            Step::Copy => Some(Step::Rename),
            Step::Rename => if self.subdirectory is None {
                Some(Step::StripMetadata)
            } else {
                None
            },
            Step::StripMetadata => None,
        }
    }

    /// The paths that `step` creates, renames or removes.
    pub open spec fn paths_changed_by(self, step: Step) -> Set<Seq<char>> {
        match step {
            Step::Probe => Set::empty(),
            Step::Copy => set![joined(self.working_directory, self.payload_name())],
            Step::Rename => set![
                joined(self.working_directory, self.payload_name()),
                self.destination_path()
            ],
            Step::StripMetadata => set![joined(self.destination_path(), metadata_name())],
        }
    }

    /// The outside work that `step` consists of.
    pub open spec fn step_action(self, step: Step) -> ActionView {
        match step {
            Step::Probe => ActionView::ProbeDestination { path: self.destination_path() },
            Step::Copy => ActionView::CopyDir {
                from: self.payload_path(),
                into: self.working_directory,
            },
            Step::Rename => ActionView::Rename {
                from: joined(self.working_directory, self.payload_name()),
                to: self.destination_path(),
            },
            Step::StripMetadata => ActionView::RemoveDir {
                path: joined(self.destination_path(), metadata_name()),
            },
        }
    }
}

impl Step {
    /// The step that materialization begins with.
    pub fn first() -> (step: Step)
        ensures
            step == Step::Probe,
    {
        Step::Probe
    }

    /// The error that a failure of this step surfaces as.
    pub fn fault(&self) -> (error: Error)
        ensures
            error == fault_of(*self),
    {
        match self {
            Step::Probe => Error::RenameFault,
            Step::Copy => Error::CopyFault,
            Step::Rename => Error::RenameFault,
            Step::StripMetadata => Error::MetadataRemovalFault,
        }
    }
}

impl RunContext {
    /// The directory that is copied.
    pub fn payload_path(&self) -> (path: String)
        ensures
            path@ == self@.payload_path(),
    {
        match self.subdirectory() {
            Some(subdirectory) => join(self.staging_path().as_str(), subdirectory.as_str()),
            None => self.staging_path().clone(),
        }
    }

    /// The name under which the copy arrives in the working directory.
    pub fn payload_name(&self) -> (name: String)
        ensures
            name@ == self@.payload_name(),
    {
        match self.subdirectory() {
            Some(subdirectory) => final_component(subdirectory.as_str()),
            None => final_component(self.staging_path().as_str()),
        }
    }

    /// The step that follows `step`, if any.
    pub fn step_after(&self, step: Step) -> (following: Option<Step>)
        ensures
            following == self@.step_after(step),
    {
        match step {
            Step::Probe => Some(Step::Copy),
            Step::Copy => Some(Step::Rename),
            Step::Rename => if self.subdirectory().is_none() {
                Some(Step::StripMetadata)
            } else {
                None
            },
            Step::StripMetadata => None,
        }
    }

    /// The outside work that `step` consists of.
    pub fn step_action(&self, step: Step) -> (action: Action)
        ensures
            action@ == self@.step_action(step),
    {
        match step {
            Step::Probe => Action::ProbeDestination { path: self.destination_path() },
            Step::Copy => Action::CopyDir {
                from: self.payload_path(),
                into: self.working_directory().clone(),
            },
            Step::Rename => {
                let name = self.payload_name();
                Action::Rename {
                    from: join(self.working_directory().as_str(), name.as_str()),
                    to: self.destination_path(),
                }
            },
            Step::StripMetadata => {
                let destination = self.destination_path();
                Action::RemoveDir { path: join(destination.as_str(), ".git") }
            },
        }
    }
}

/// Where the subdirectory has a proper base name, the copy of the payload
/// arrives under that name: the last component of the payload's own path.
pub proof fn lemma_payload_name_is_final_component(context: ContextView)
    requires
        context.subdirectory matches Some(subdirectory) ==> !is_skipped(
            final_component_of(subdirectory),
        ),
    ensures
        context.payload_name() == final_component_of(context.payload_path()),
{
    if let Some(subdirectory) = context.subdirectory {
        lemma_final_component_below(context.staging_path, subdirectory);
    }
}

/// In an isolated context no step of materialization changes anything in
/// the staged tree: the tree is only read.
pub proof fn lemma_isolated_staging_is_only_read(context: ContextView, step: Step)
    requires
        context.is_isolated(),
    ensures
        forall|path: Seq<char>| #[trigger]
            context.paths_changed_by(step).contains(path) ==> !is_within(
                path,
                context.staging_path,
            ),
{
    let staging = context.staging_path;
    let directory = context.working_directory;
    lemma_apart_from_entries(staging, directory, context.destination_name);
    lemma_apart_from_entries(staging, directory, context.payload_name());
    lemma_apart_from_entries(staging, context.destination_path(), metadata_name());
}

} // verus!
