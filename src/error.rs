use vstd::prelude::*;

verus! {

/// Why an operation on the volume failed.
#[derive(Debug, PartialEq, Eq)]
pub enum FsError {
    /// The path holds a component other than the root or a plain name (`..`, `.`, a prefix).
    UnsupportedPathComponent,
    /// No entry of the directory bears this (upper-cased) name.
    ComponentNotFound(String),
    /// A component before the last one names a file or a symlink.
    NotADirectory,
    /// A directory listing was asked of a file or a symlink.
    NotPermittedOnFile,
    /// File content was asked of a directory or a symlink.
    NotAFile,
    /// The volume is read-only: every change is refused.
    PermissionDenied,
}

impl FsError {
    /// A missing component may appear later, so it is worth retrying; every
    /// other failure is permanent.
    pub fn is_transient(&self) -> (r: bool)
        ensures
            r == (*self is ComponentNotFound),
    {
        match self {
            FsError::ComponentNotFound(_) => true,
            _ => false,
        }
    }
}

} // verus!
