//! The host-facing vocabulary of the adapter: how a path is classified and
//! how a failed operation is reported.

use vstd::prelude::*;

verus! {

/// How a logical path is classified by the adapter.
#[derive(Clone, Copy, Debug, PartialEq, Eq, Structural)]
pub enum FileType {
    /// The path names an entry stored in the archive.
    File,
    /// The path is a prefix of at least one entry key, without being a key
    /// itself; no real archive entity backs it.
    Directory,
}

/// Metadata reported for a logical path: nothing beyond its classification.
#[derive(Clone, Copy, Debug, PartialEq, Eq, Structural)]
pub struct Metadata {
    /// Whether the path is a stored entry or a synthesized directory.
    pub file_type: FileType,
}

impl Metadata {
    /// Wrap a [`FileType`].
    pub fn new(file_type: FileType) -> (r: Metadata)
        ensures
            r.file_type == file_type,
    {
        Metadata { file_type }
    }
}

/// A failed adapter operation, in the host's taxonomy.
#[derive(Debug, PartialEq, Eq)]
pub enum VfsError {
    /// The archive could not be opened: the source was unreadable, malformed
    /// or incompatible. Carries a description of the cause.
    Open(String),
    /// An underlying read failure, or any other archive-level failure
    /// (corruption, decode failure), demoted to text. Path-independent.
    Io(String),
    /// No entry key equals the requested path and none has it as a prefix.
    /// Carries the requested path.
    NotFound(String),
    /// Change watching is never supported: the archive is immutable for the
    /// lifetime of the process. Carries the watched path or a fixed notice.
    Unsupported(String),
}

} // verus!
