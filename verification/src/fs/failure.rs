//! What the library keeps of a failed file operation.

use vstd::prelude::*;

verus! {

/// The categories of I/O failure that the classification rules tell apart.
#[derive(Debug, Clone, Copy, PartialEq, Eq, Structural)]
pub enum IoFailureKind {
    /// The entry does not exist.
    NotFound,
    /// The entry exists although it was to be created.
    AlreadyExists,
    /// A file was expected and a directory was met.
    IsADirectory,
    /// The operation was not permitted.
    PermissionDenied,
    /// Any other failure.
    Other,
}

/// A failed file operation: its category and the text that describes it.
#[derive(Debug)]
pub struct IoFailure {
    kind: IoFailureKind,
    description: String,
}

/// The mathematical content of an [`IoFailure`].
pub struct IoFailureView {
    pub kind: IoFailureKind,
    pub description: Seq<char>,
}

impl View for IoFailure {
    type V = IoFailureView;

    closed spec fn view(&self) -> IoFailureView {
        IoFailureView { kind: self.kind, description: self.description@ }
    }
}

impl IoFailure {
    /// Records a failure of category `kind` described by `description`.
    pub fn new(kind: IoFailureKind, description: &str) -> (failure: IoFailure)
        ensures
            failure@ == (IoFailureView { kind, description: description@ }),
    {
        IoFailure { kind, description: description.to_owned() }
    }

    /// The category of the failure.
    pub fn kind(&self) -> (kind: IoFailureKind)
        ensures
            kind == self@.kind,
    {
        self.kind
    }

    /// The text that describes the failure.
    pub fn description(&self) -> (text: &str)
        ensures
            text@ == self@.description,
    {
        self.description.as_str()
    }
}

} // verus!
