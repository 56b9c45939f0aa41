use vstd::prelude::*;

verus! {

/// Why a run stopped. Every failure is terminal: nothing is retried and
/// nothing already written is rolled back.
#[derive(Debug, Clone, Copy, PartialEq, Eq, Structural)]
pub enum Error {
    /// The identifier is not a key of the template table.
    UnknownTemplate,
    /// A template location is not an absolute URL with a named last segment.
    MalformedLocation,
    /// The working directory could not be determined, or it is the staging
    /// path, lies in it or holds it.
    WorkingDirectoryUnavailable,
    /// The repository could not be fetched or checked out.
    FetchFailure,
    /// The staged tree could not be copied into the working directory.
    CopyFault,
    /// The destination name is taken, or the copied entry could not be
    /// renamed to it.
    RenameFault,
    /// The version-control metadata could not be removed from the result.
    MetadataRemovalFault,
}

impl Error {
    /// Whether the failure comes from a filesystem step of materialization.
    pub open spec fn is_filesystem_fault(self) -> bool {
        self == Error::CopyFault || self == Error::RenameFault || self
            == Error::MetadataRemovalFault
    }

    /// Filesystem faults are reported with the underlying diagnostic message
    /// before the run stops; every other failure stops the run silently.
    pub fn reports_diagnostic(&self) -> (b: bool)
        ensures
            b == self.is_filesystem_fault(),
    {
        match self {
            Error::CopyFault | Error::RenameFault | Error::MetadataRemovalFault => true,
            _ => false,
        }
    }
}

} // verus!
