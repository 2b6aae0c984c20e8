use vstd::prelude::*;

verus! {

/// The kind of a filesystem object, as the remote store reports it.
#[derive(Clone, Copy, PartialEq, Eq, Structural, Debug)]
pub enum FileType {
    Directory,
    RegularFile,
}

/// A recoverable failure of a filesystem operation.
///
/// Every remote or local fault surfaces as one of these; the mount stays
/// alive across individual failures. `TypeMismatch` carries the kind the
/// caller expected (a directory operation on a file expected `Directory`,
/// a file operation on a directory expected `RegularFile`).
#[derive(Clone, Copy, PartialEq, Eq, Structural, Debug)]
pub enum FsError {
    /// The remote store reports no such path.
    NotFound,
    /// The remote store answered with a structured error payload.
    RemoteFault,
    /// The remote store could not be reached at all.
    TransportFailure,
    /// A size or timestamp field of the remote metadata failed to parse.
    MalformedMetadata,
    /// An operation was given a handle that is missing from its table,
    /// or a read found no cached locator for its path.
    InvalidHandle,
    /// A directory operation targeted a file or a file operation a
    /// directory; the payload is the kind the operation expected.
    TypeMismatch(FileType),
}

impl FsError {
    /// The POSIX error number this failure surfaces as to the kernel.
    pub open spec fn errno_spec(self) -> i32 {
        match self {
            FsError::NotFound => 2,
            FsError::RemoteFault => 5,
            FsError::TransportFailure => 5,
            FsError::MalformedMetadata => 5,
            FsError::InvalidHandle => 22,
            FsError::TypeMismatch(FileType::Directory) => 20,
            FsError::TypeMismatch(FileType::RegularFile) => 21,
        }
    }

    /// Translates the failure to the POSIX error number handed back to the
    /// kernel: `ENOENT`, `EIO`, `EINVAL`, `ENOTDIR` or `EISDIR`.
    pub fn errno(&self) -> (r: i32)
        ensures
            r == self.errno_spec(),
    {
        match self {
            FsError::NotFound => 2,
            FsError::RemoteFault => 5,
            FsError::TransportFailure => 5,
            FsError::MalformedMetadata => 5,
            FsError::InvalidHandle => 22,
            FsError::TypeMismatch(FileType::Directory) => 20,
            FsError::TypeMismatch(FileType::RegularFile) => 21,
        }
    }
}

} // verus!
