//! What can go wrong, for one file or for the whole run.

use vstd::prelude::*;

verus! {

/// The stage at which something went wrong.
#[derive(Debug, Clone, Copy, PartialEq, Eq, Structural)]
pub enum ErrorKind {
    /// The loader of the running program could not be determined.
    LoaderResolution,
    /// A directory entry could not be read.
    Traversal,
    /// The first bytes of a file could not be read.
    ClassificationIo,
    /// An ELF binary's loader could not be determined or replaced.
    ElfPatch,
    /// A script could not be read, written or moved into place.
    ShebangRewrite,
}

/// A failure, with the text to show for it.
#[derive(Debug, Clone, PartialEq, Eq)]
pub struct PatchError {
    pub kind: ErrorKind,
    pub message: String,
}

/// The mathematical content of a [`PatchError`].
pub struct ErrorView {
    pub kind: ErrorKind,
    pub message: Seq<char>,
}

impl View for PatchError {
    type V = ErrorView;

    open spec fn view(&self) -> ErrorView {
        ErrorView { kind: self.kind, message: self.message@ }
    }
}

/// Whether a failure of this kind ends the run. Only a failure to find the
/// running program's own loader does; every other failure concerns one file.
pub open spec fn fatal(kind: ErrorKind) -> bool {
    kind == ErrorKind::LoaderResolution
}

impl ErrorKind {
    /// Whether a failure of this kind ends the run.
    pub fn is_fatal(&self) -> (r: bool)
        ensures
            r == fatal(*self),
    {
        match self {
            ErrorKind::LoaderResolution => true,
            _ => false,
        }
    }
}

impl PatchError {
    /// A failure of the given kind with the given text.
    pub fn new(kind: ErrorKind, message: String) -> (e: PatchError)
        ensures
            e@ == (ErrorView { kind, message: message@ }),
    {
        PatchError { kind, message }
    }

    /// Whether this failure ends the run.
    pub fn is_fatal(&self) -> (r: bool)
        ensures
            r == fatal(self@.kind),
    {
        self.kind.is_fatal()
    }
}

} // verus!
