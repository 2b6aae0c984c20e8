use vstd::prelude::*;
use vstd::string::StrSliceExecFns;

verus! {

/// One child reference inside a remote directory listing: whether the
/// child is a folder, and its reference path relative to the listed
/// directory. The remote reports the reference with a leading separator.
pub struct DirEntry {
    pub folder: bool,
    pub uri: String,
}

impl DirEntry {
    /// The child's displayed name: its reference path with the leading
    /// separator character stripped.
    pub fn get_name(&self) -> (r: &str)
        requires
            self.uri@.len() >= 1,
        ensures
            r@ == self.uri@.skip(1),
    {
        let len: usize = self.uri.as_str().unicode_len();
        let r = self.uri.as_str().substring_char(1, len);
        proof {
            assert(r@ =~= self.uri@.skip(1));
        }
        r
    }
}

/// The remote store's metadata for a directory: its ordered children and
/// its three timestamps, plus the store-side identification fields.
pub struct DirInfo {
    pub children: Vec<DirEntry>,
    pub created: String,
    pub last_modified: String,
    pub last_updated: String,
    pub path: String,
    pub repo: String,
    pub uri: String,
}

/// The checksums the remote store reports for a file's content.
pub struct Checksums {
    pub md5: String,
    pub sha1: String,
    pub sha256: String,
}

/// The remote store's metadata for a file: its decimal size, its three
/// timestamps, its checksums and the absolute locator its content can be
/// fetched from, plus the store-side identification fields.
pub struct FileInfo {
    pub checksums: Checksums,
    pub created: String,
    pub created_by: String,
    pub download_uri: String,
    pub last_modified: String,
    pub last_updated: String,
    pub mime_type: String,
    pub modified_by: String,
    pub original_checksums: Checksums,
    pub path: String,
    pub repo: String,
    pub size: String,
    pub uri: String,
}

/// One structured error of a remote error payload.
pub struct RtError {
    pub message: String,
    pub status: i16,
}

/// The remote store's structured error payload.
pub struct RtErrors {
    pub errors: Vec<RtError>,
}

/// The remote store's answer to a metadata query: exactly one of a
/// directory listing, a file description, or a structured error.
pub enum Listing {
    Directory(DirInfo),
    File(FileInfo),
    Error(RtErrors),
}

} // verus!
