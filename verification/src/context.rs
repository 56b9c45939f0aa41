//! The context of one run.

use crate::error::Error;
use crate::path::{are_apart, join, joined, lemma_apart_from_entries, lie_apart};
use crate::template::{text_of, EntryView, TemplateEntry};
use vstd::prelude::*;

verus! {

/// Everything one run works on. It is built once, when the template and the
/// working directory are known, and never changed afterwards. Its staging
/// path is apart from its working directory and from its destination path:
/// no context exists of which that does not hold.
#[derive(Debug, PartialEq, Eq)]
pub struct RunContext {
    pub(crate) location: String,
    pub(crate) branch: Option<String>,
    pub(crate) staging_path: String,
    pub(crate) destination_name: String,
    pub(crate) subdirectory: Option<String>,
    pub(crate) working_directory: String,
}

/// A run context as plain text.
pub struct ContextView {
    pub location: Seq<char>,
    pub branch: Option<Seq<char>>,
    pub staging_path: Seq<char>,
    pub destination_name: Seq<char>,
    pub subdirectory: Option<Seq<char>>,
    pub working_directory: Seq<char>,
}

impl ContextView {
    /// The context of a run of `entry` staged at `staging_path`.
    pub open spec fn of(
        entry: EntryView,
        staging_path: Seq<char>,
        destination_name: Seq<char>,
        working_directory: Seq<char>,
    ) -> ContextView {
        ContextView {
            location: entry.location,
            branch: entry.branch,
            staging_path,
            destination_name,
            subdirectory: entry.subdirectory,
            working_directory,
        }
    }

    /// The path that the run leaves behind on success.
    pub open spec fn destination_path(self) -> Seq<char> {
        joined(self.working_directory, self.destination_name)
    }

    /// The staging path is apart from the working directory and from the
    /// destination path, as text: the staged tree is copied out of the one
    /// into the other, and a tree must never be copied into itself.
    pub open spec fn is_isolated(self) -> bool {
        are_apart(self.staging_path, self.working_directory) && are_apart(
            self.staging_path,
            self.destination_path(),
        )
    }
}

/// A staging path that is apart from the working directory is apart from
/// every destination in it.
pub proof fn lemma_isolation_follows_from_the_working_directory(context: ContextView)
    ensures
        context.is_isolated() == are_apart(context.staging_path, context.working_directory),
{
    if are_apart(context.staging_path, context.working_directory) {
        lemma_apart_from_entries(
            context.staging_path,
            context.working_directory,
            context.destination_name,
        );
    }
}

impl View for RunContext {
    type V = ContextView;

    closed spec fn view(&self) -> ContextView {
        ContextView {
            location: self.location@,
            branch: text_of(self.branch),
            staging_path: self.staging_path@,
            destination_name: self.destination_name@,
            subdirectory: text_of(self.subdirectory),
            working_directory: self.working_directory@,
        }
    }
}

impl RunContext {
    /// What holds of every context: its staging path is isolated.
    #[verifier::type_invariant]
    pub open spec fn staging_is_isolated(self) -> bool {
        self@.is_isolated()
    }

    /// The context of a run of `entry`. There is none where the staging
    /// path is the working directory, lies in it or holds it: such a working
    /// directory is not available to the run.
    pub fn new(
        entry: TemplateEntry,
        staging_path: String,
        destination_name: String,
        working_directory: String,
    ) -> (built: Result<RunContext, Error>)
        ensures
            match built {
                Ok(context) => {
                    &&& context@ == ContextView::of(
                        entry@,
                        staging_path@,
                        destination_name@,
                        working_directory@,
                    )
                    &&& context@.is_isolated()
                },
                Err(error) => {
                    &&& error == Error::WorkingDirectoryUnavailable
                    &&& !ContextView::of(
                        entry@,
                        staging_path@,
                        destination_name@,
                        working_directory@,
                    ).is_isolated()
                },
            },
    {
        proof {
            lemma_isolation_follows_from_the_working_directory(
                ContextView::of(entry@, staging_path@, destination_name@, working_directory@),
            );
        }
        if lie_apart(staging_path.as_str(), working_directory.as_str()) {
            Ok(
                RunContext {
                    location: entry.location,
                    branch: entry.branch,
                    staging_path,
                    destination_name,
                    subdirectory: entry.subdirectory,
                    working_directory,
                },
            )
        } else {
            Err(Error::WorkingDirectoryUnavailable)
        }
    }

    /// The repository that is fetched.
    pub fn location(&self) -> (location: &String)
        ensures
            location@ == self@.location,
    {
        &self.location
    }

    /// The branch that is checked out; the remote's default branch where
    /// there is none.
    pub fn branch(&self) -> (branch: &Option<String>)
        ensures
            text_of(*branch) == self@.branch,
    {
        &self.branch
    }

    /// Where the repository is staged: apart from the working directory and
    /// from the destination path.
    pub fn staging_path(&self) -> (path: &String)
        ensures
            path@ == self@.staging_path,
            self@.is_isolated(),
    {
        proof {
            use_type_invariant(self);
        }
        &self.staging_path
    }

    /// The name that the result is left under.
    pub fn destination_name(&self) -> (name: &String)
        ensures
            name@ == self@.destination_name,
    {
        &self.destination_name
    }

    /// The subdirectory that is the payload; the whole tree where there is
    /// none.
    pub fn subdirectory(&self) -> (subdirectory: &Option<String>)
        ensures
            text_of(*subdirectory) == self@.subdirectory,
    {
        &self.subdirectory
    }

    /// The directory that the result is left in: apart from the staging
    /// path.
    pub fn working_directory(&self) -> (directory: &String)
        ensures
            directory@ == self@.working_directory,
            self@.is_isolated(),
    {
        proof {
            use_type_invariant(self);
        }
        &self.working_directory
    }

    /// The path that the run leaves behind on success.
    pub fn destination_path(&self) -> (path: String)
        ensures
            path@ == self@.destination_path(),
    {
        join(self.working_directory.as_str(), self.destination_name.as_str())
    }
}

} // verus!
