//! Error taxonomy of the workflow engine.
//!
//! Every failure is surfaced to the caller with its class and enough
//! context to act; none is silently swallowed.

use vstd::prelude::*;

verus! {

/// The class of a workflow-engine failure.
#[derive(Clone, Copy, Debug, PartialEq, Eq, Structural)]
pub enum ErrorKind {
    /// The path is not a valid repository, or the repository cannot be
    /// opened.
    Repository,
    /// Neither a `main` nor a `master` branch exists.
    NoTrunk,
    /// A named branch, commit or tag cannot be resolved.
    RevisionNotFound,
    /// Branch creation collided with an existing reference name.
    BranchExists,
    /// The branch to delete is the currently checked-out HEAD; deleting
    /// it would leave a dangling HEAD.
    BranchCheckedOut,
    /// The three-way merge produced overlapping, unresolved changes.
    MergeConflict,
    /// An underlying object-store or working-tree failure.
    Io,
}

/// A workflow-engine failure: its class plus a human-readable context
/// message naming the operation and branches involved.
#[derive(Clone, Debug)]
pub struct EngineError {
    pub kind: ErrorKind,
    pub message: String,
}

impl EngineError {
    /// Packs a failure class with its context message.
    pub fn new(kind: ErrorKind, message: String) -> (r: EngineError)
        ensures
            r.kind == kind,
            r.message@ == message@,
    {
        EngineError { kind, message }
    }

    /// The human-readable context of the failure.
    pub fn describe(&self) -> (r: String)
        ensures
            r@ == self.message@,
    {
        self.message.clone()
    }
}

} // verus!
