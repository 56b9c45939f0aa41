//! Template entries: where a template lives and which part of it is wanted.

use vstd::prelude::*;

verus! {

/// What an optional text holds.
pub open spec fn text_of(text: Option<String>) -> Option<Seq<char>> {
    match text {
        Some(s) => Some(s@),
        None => None,
    }
}

/// A copy of an optional text.
pub fn clone_text(text: &Option<String>) -> (copy: Option<String>)
    ensures
        text_of(copy) == text_of(*text),
{
    match text {
        Some(s) => Some(s.clone()),
        None => None,
    }
}

/// One template: the repository, the branch to check out (the remote's default
/// branch where there is none), and the subdirectory that is the payload (the
/// whole tree where there is none).
#[derive(Debug, Clone, PartialEq, Eq)]
pub struct TemplateEntry {
    pub location: String,
    pub branch: Option<String>,
    pub subdirectory: Option<String>,
}

/// A template entry as plain text.
pub struct EntryView {
    pub location: Seq<char>,
    pub branch: Option<Seq<char>>,
    pub subdirectory: Option<Seq<char>>,
}

impl View for TemplateEntry {
    type V = EntryView;

    open spec fn view(&self) -> EntryView {
        EntryView {
            location: self.location@,
            branch: text_of(self.branch),
            subdirectory: text_of(self.subdirectory),
        }
    }
}

} // verus!
