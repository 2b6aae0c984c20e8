use vstd::prelude::*;
use vstd::string::StrSliceExecFns;
use vstd::string::StringExecFns;
use std::collections::HashMap;

use crate::errors::FileType;
use crate::errors::FsError;
use crate::listing::DirEntry;
use crate::listing::DirInfo;
use crate::listing::FileInfo;
use crate::listing::Listing;
use crate::locator::LocatorCache;
use crate::num::digits_val;
use crate::num::is_u64_decimal;
use crate::num::parse_u64;
use crate::timestamp::is_timestamp;
use crate::timestamp::parse_timestamp;
use crate::timestamp::timestamp_spec;
use crate::timestamp::Timespec;

verus! {

broadcast use vstd::std_specs::hash::group_hash_axioms;

/// Seconds the kernel may treat a returned attribute record as valid
/// without asking again.
pub const ATTR_TTL_SECONDS: u64 = 10;

/// The fixed permission bits every object is reported with; the mount is
/// read-only at the operation level, so no write ever reaches the store.
pub const PERMISSION_BITS: u16 = 0o666;

/// The POSIX-facing attribute record of one filesystem object.
#[derive(Clone, Copy, PartialEq, Eq, Structural, Debug)]
pub struct Attr {
    pub kind: FileType,
    pub size: u64,
    pub atime: Timespec,
    pub mtime: Timespec,
    pub ctime: Timespec,
    pub perm: u16,
    pub nlink: u32,
    pub uid: u32,
    pub gid: u32,
}

/// What an open handle is bound to: the path it was opened for and the
/// attribute record observed at open time.
pub struct FsInfo {
    pub path: String,
    pub attr: Attr,
}

/// One entry of a directory listing as handed back to the kernel: the
/// child's display name and its kind.
#[derive(Debug)]
pub struct ChildEntry {
    pub name: String,
    pub kind: FileType,
}

/// The attribute record projected from a directory listing.
pub open spec fn dir_attr(di: DirInfo, uid: u32, gid: u32) -> Attr {
    Attr {
        kind: FileType::Directory,
        size: 4096,
        atime: timestamp_spec(di.last_updated@),
        mtime: timestamp_spec(di.last_modified@),
        ctime: timestamp_spec(di.created@),
        perm: 0o666,
        nlink: 1,
        uid: uid,
        gid: gid,
    }
}

/// The attribute record projected from a file listing.
pub open spec fn file_attr(fi: FileInfo, uid: u32, gid: u32) -> Attr {
    Attr {
        kind: FileType::RegularFile,
        size: digits_val(fi.size@) as u64,
        atime: timestamp_spec(fi.last_updated@),
        mtime: timestamp_spec(fi.last_modified@),
        ctime: timestamp_spec(fi.created@),
        perm: 0o666,
        nlink: 1,
        uid: uid,
        gid: gid,
    }
}

/// What a stat of a path yields for a given remote answer: the projected
/// attribute record, or the failure it surfaces. A structured remote
/// error with status 404 at its front means the path does not exist;
/// any other structured error is a remote fault; a size or timestamp
/// field that fails to parse is malformed metadata.
pub open spec fn stat_spec(l: Listing, uid: u32, gid: u32) -> Result<Attr, FsError> {
    match l {
        Listing::Directory(di) => {
            if is_timestamp(di.last_updated@) && is_timestamp(di.last_modified@) && is_timestamp(
                di.created@,
            ) {
                Ok(dir_attr(di, uid, gid))
            } else {
                Err(FsError::MalformedMetadata)
            }
        },
        Listing::File(fi) => {
            if is_u64_decimal(fi.size@) && is_timestamp(fi.last_updated@) && is_timestamp(
                fi.last_modified@,
            ) && is_timestamp(fi.created@) {
                Ok(file_attr(fi, uid, gid))
            } else {
                Err(FsError::MalformedMetadata)
            }
        },
        Listing::Error(errs) => {
            if errs.errors@.len() > 0 && errs.errors@[0].status == 404 {
                Err(FsError::NotFound)
            } else {
                Err(FsError::RemoteFault)
            }
        },
    }
}

/// What a stat yields when the remote may not have answered at all: no
/// answer is a transport failure.
pub open spec fn stat_opt_spec(listing: Option<&Listing>, uid: u32, gid: u32) -> Result<
    Attr,
    FsError,
> {
    match listing {
        Some(l) => stat_spec(*l, uid, gid),
        None => Err(FsError::TransportFailure),
    }
}

/// How a stat changes the locator cache: resolving a file records its
/// download locator under the stat'd filesystem path; nothing else
/// changes the cache.
pub open spec fn locator_update(
    m: Map<Seq<char>, Seq<char>>,
    path: Seq<char>,
    l: Listing,
) -> Map<Seq<char>, Seq<char>> {
    match l {
        Listing::File(fi) => m.insert(path, fi.download_uri@),
        _ => m,
    }
}

/// `locator_update` lifted over a possibly missing remote answer.
pub open spec fn locator_update_opt(
    m: Map<Seq<char>, Seq<char>>,
    path: Seq<char>,
    listing: Option<&Listing>,
) -> Map<Seq<char>, Seq<char>> {
    match listing {
        Some(l) => locator_update(m, path, *l),
        None => m,
    }
}

/// A child's display name: its reference path with the leading separator
/// stripped.
pub open spec fn child_name(e: DirEntry) -> Seq<char> {
    e.uri@.skip(1)
}

/// A child's kind: a directory when the remote marked it a folder, a
/// regular file otherwise.
pub open spec fn child_kind(e: DirEntry) -> FileType {
    if e.folder {
        FileType::Directory
    } else {
        FileType::RegularFile
    }
}

/// Whether every child of a directory listing carries a nonempty
/// reference path; only such listings can be turned into entries.
pub open spec fn children_named(l: Listing) -> bool {
    match l {
        Listing::Directory(di) => forall|i: int|
            0 <= i < di.children@.len() ==> (#[trigger] di.children@[i]).uri@.len() >= 1,
        _ => true,
    }
}

/// What listing a directory yields for a given remote answer: one entry
/// per child, in the remote's order, each with its name and kind. A
/// missing answer or a structured remote error lists as empty; a file
/// answer is a type mismatch, because the handle was opened as a
/// directory.
pub open spec fn readdir_spec(listing: Option<&Listing>) -> Result<
    Seq<(Seq<char>, FileType)>,
    FsError,
> {
    match listing {
        None => Ok(Seq::empty()),
        Some(l) => match l {
            Listing::Error(_) => Ok(Seq::empty()),
            Listing::File(_) => Err(FsError::TypeMismatch(FileType::Directory)),
            Listing::Directory(di) => Ok(
                di.children@.map_values(|e: DirEntry| (child_name(e), child_kind(e))),
            ),
        },
    }
}

/// The remote query path a filesystem path maps to: the leading
/// separator is stripped (so the root becomes the empty string) and the
/// result is joined under the repository name.
pub open spec fn remote_query_path(repo: Seq<char>, path: Seq<char>) -> Seq<char> {
    let stripped = if path.len() >= 1 && path[0] == '/' {
        path.skip(1)
    } else {
        path
    };
    repo + seq!['/'] + stripped
}

/// Relies on rand::random_range: a drawn value lies within the given
/// half-open range. The draw only seeds a handle counter away from small
/// conventional integers; no correctness property rests on randomness.
#[verifier::external_body]
fn seed_handle_counter() -> (r: u64)
    ensures
        0xaaaa <= r < u64::MAX / 2,
{
    rand::random_range(0xaaaau64..(u64::MAX / 2))
}

/// The filesystem adapter: the state a mounted tree keeps between
/// operations. Two disjoint handle tables with their counters, and the
/// path-to-locator cache filled by stats of files.
///
/// Every operation that needs a remote answer takes it as an argument;
/// the caller performs the remote query for the path `query_path`
/// computes and hands the decoded answer in.
pub struct RtFS {
    /// The repository name all query paths are joined under.
    pub repo: String,
    dir_handles: HashMap<u64, FsInfo>,
    file_handles: HashMap<u64, FsInfo>,
    last_dir_handle: u64,
    last_file_handle: u64,
    uris: LocatorCache,
}

impl RtFS {
    /// The repository name all query paths are joined under.
    pub closed spec fn repo_name(&self) -> Seq<char> {
        self.repo@
    }

    /// The table of currently open directory handles.
    pub closed spec fn dir_handle_map(&self) -> Map<u64, FsInfo> {
        self.dir_handles@
    }

    /// The table of currently open file handles.
    pub closed spec fn file_handle_map(&self) -> Map<u64, FsInfo> {
        self.file_handles@
    }

    /// The path-to-locator cache.
    pub closed spec fn locator_map(&self) -> Map<Seq<char>, Seq<char>> {
        self.uris.view()
    }

    /// The directory handle counter: the value most recently issued.
    pub closed spec fn dir_counter(&self) -> u64 {
        self.last_dir_handle
    }

    /// The file handle counter: the value most recently issued.
    pub closed spec fn file_counter(&self) -> u64 {
        self.last_file_handle
    }

    /// The adapter's invariant: every open handle is nonzero (zero is
    /// the reserved sentinel for "missing handle") and no open handle is
    /// beyond its table's counter, so the next counter value is fresh.
    pub closed spec fn wf(&self) -> bool {
        &&& forall|h: u64|
            #[trigger] self.dir_handles@.contains_key(h) ==> 1 <= h <= self.last_dir_handle
        &&& forall|h: u64|
            #[trigger] self.file_handles@.contains_key(h) ==> 1 <= h <= self.last_file_handle
        &&& self.uris.wf()
    }

    /// A fresh adapter for one repository: both handle tables and the
    /// locator cache empty, both counters seeded into the lower half of
    /// the 64-bit range so ample headroom remains before either counter
    /// could be exhausted.
    pub fn new(repo: String) -> (r: Self)
        ensures
            r.wf(),
            r.repo_name() == repo@,
            r.dir_handle_map() == Map::<u64, FsInfo>::empty(),
            r.file_handle_map() == Map::<u64, FsInfo>::empty(),
            r.locator_map() == Map::<Seq<char>, Seq<char>>::empty(),
            r.dir_counter() < u64::MAX / 2,
            r.file_counter() < u64::MAX / 2,
    {
        RtFS {
            repo: repo,
            dir_handles: HashMap::new(),
            file_handles: HashMap::new(),
            last_dir_handle: seed_handle_counter(),
            last_file_handle: seed_handle_counter(),
            uris: LocatorCache::new(),
        }
    }

    /// The remote query path for a filesystem path.
    pub fn query_path(&self, path: &str) -> (r: String)
        ensures
            r@ == remote_query_path(self.repo_name(), path@),
    {
        let mut out = self.repo.clone();
        out.append("/");
        proof {
            reveal_strlit("/");
            assert(("/")@ =~= seq!['/']);
        }
        let len: usize = path.unicode_len();
        if len >= 1 && path.get_char(0) == '/' {
            let rest = path.substring_char(1, len);
            out.append(rest);
            proof {
                assert(rest@ =~= path@.skip(1));
                assert(out@ =~= remote_query_path(self.repo@, path@));
            }
        } else {
            out.append(path);
            proof {
                assert(out@ =~= remote_query_path(self.repo@, path@));
            }
        }
        out
    }

    /// Allocates a fresh directory handle bound to `info`: bumps the
    /// counter and registers the handle, which was not previously open.
    fn get_dir_handle(&mut self, info: FsInfo) -> (fh: u64)
        requires
            old(self).wf(),
            old(self).last_dir_handle < u64::MAX,
        ensures
            final(self).wf(),
            fh != 0,
            !old(self).dir_handle_map().contains_key(fh),
            final(self).dir_handle_map() == old(self).dir_handle_map().insert(fh, info),
            final(self).dir_counter() == old(self).dir_counter() + 1,
            final(self).file_handle_map() == old(self).file_handle_map(),
            final(self).file_counter() == old(self).file_counter(),
            final(self).locator_map() == old(self).locator_map(),
            final(self).repo_name() == old(self).repo_name(),
    {
        self.last_dir_handle = self.last_dir_handle + 1;
        let fh = self.last_dir_handle;
        self.dir_handles.insert(fh, info);
        fh
    }

    /// Allocates a fresh file handle bound to `info`: bumps the counter
    /// and registers the handle, which was not previously open.
    fn get_file_handle(&mut self, info: FsInfo) -> (fh: u64)
        requires
            old(self).wf(),
            old(self).last_file_handle < u64::MAX,
        ensures
            final(self).wf(),
            fh != 0,
            !old(self).file_handle_map().contains_key(fh),
            final(self).file_handle_map() == old(self).file_handle_map().insert(fh, info),
            final(self).file_counter() == old(self).file_counter() + 1,
            final(self).dir_handle_map() == old(self).dir_handle_map(),
            final(self).dir_counter() == old(self).dir_counter(),
            final(self).locator_map() == old(self).locator_map(),
            final(self).repo_name() == old(self).repo_name(),
    {
        self.last_file_handle = self.last_file_handle + 1;
        let fh = self.last_file_handle;
        self.file_handles.insert(fh, info);
        fh
    }

    /// Projects the remote answer for `path` into an attribute record,
    /// recording a file's download locator under `path` on the way (even
    /// when a later metadata field then fails to parse). Handle tables
    /// are untouched; the failures are exactly those of `stat_opt_spec`.
    pub fn getattr(&mut self, path: &str, listing: Option<&Listing>, uid: u32, gid: u32) -> (r:
        Result<Attr, FsError>)
        requires
            old(self).wf(),
        ensures
            final(self).wf(),
            final(self).repo_name() == old(self).repo_name(),
            final(self).dir_handle_map() == old(self).dir_handle_map(),
            final(self).file_handle_map() == old(self).file_handle_map(),
            final(self).dir_counter() == old(self).dir_counter(),
            final(self).file_counter() == old(self).file_counter(),
            final(self).locator_map() == locator_update_opt(old(self).locator_map(), path@, listing),
            r == stat_opt_spec(listing, uid, gid),
    {
        let l = match listing {
            Some(l) => l,
            None => {
                return Err(FsError::TransportFailure);
            },
        };
        match l {
            Listing::Error(errs) => {
                if errs.errors.len() > 0 {
                    let status = errs.errors[0].status;
                    if status == 404 {
                        Err(FsError::NotFound)
                    } else {
                        Err(FsError::RemoteFault)
                    }
                } else {
                    Err(FsError::RemoteFault)
                }
            },
            Listing::Directory(di) => {
                let atime = match parse_timestamp(di.last_updated.as_str()) {
                    Ok(t) => t,
                    Err(e) => {
                        return Err(e);
                    },
                };
                let mtime = match parse_timestamp(di.last_modified.as_str()) {
                    Ok(t) => t,
                    Err(e) => {
                        return Err(e);
                    },
                };
                let ctime = match parse_timestamp(di.created.as_str()) {
                    Ok(t) => t,
                    Err(e) => {
                        return Err(e);
                    },
                };
                Ok(
                    Attr {
                        kind: FileType::Directory,
                        size: 4096,
                        atime,
                        mtime,
                        ctime,
                        perm: PERMISSION_BITS,
                        nlink: 1,
                        uid,
                        gid,
                    },
                )
            },
            Listing::File(fi) => {
                self.uris.record(String::from_str(path), fi.download_uri.clone());
                let size = match parse_u64(fi.size.as_str()) {
                    Some(n) => n,
                    None => {
                        return Err(FsError::MalformedMetadata);
                    },
                };
                let atime = match parse_timestamp(fi.last_updated.as_str()) {
                    Ok(t) => t,
                    Err(e) => {
                        return Err(e);
                    },
                };
                let mtime = match parse_timestamp(fi.last_modified.as_str()) {
                    Ok(t) => t,
                    Err(e) => {
                        return Err(e);
                    },
                };
                let ctime = match parse_timestamp(fi.created.as_str()) {
                    Ok(t) => t,
                    Err(e) => {
                        return Err(e);
                    },
                };
                Ok(
                    Attr {
                        kind: FileType::RegularFile,
                        size,
                        atime,
                        mtime,
                        ctime,
                        perm: PERMISSION_BITS,
                        nlink: 1,
                        uid,
                        gid,
                    },
                )
            },
        }
    }

    /// Opens `path` as a directory. The stat must succeed and report a
    /// directory; then a fresh, never-before-open handle is allocated
    /// and bound to the path and the observed attributes. A file-typed
    /// path is rejected as a type mismatch and no handle is allocated;
    /// a failed stat surfaces its failure unchanged.
    pub fn opendir(&mut self, path: &str, listing: Option<&Listing>, uid: u32, gid: u32) -> (r:
        Result<u64, FsError>)
        requires
            old(self).wf(),
            old(self).dir_counter() < u64::MAX,
        ensures
            final(self).wf(),
            final(self).repo_name() == old(self).repo_name(),
            final(self).file_handle_map() == old(self).file_handle_map(),
            final(self).file_counter() == old(self).file_counter(),
            final(self).locator_map() == locator_update_opt(old(self).locator_map(), path@, listing),
            match stat_opt_spec(listing, uid, gid) {
                Ok(attr) => {
                    if attr.kind == FileType::Directory {
                        &&& r is Ok
                        &&& r->Ok_0 != 0
                        &&& !old(self).dir_handle_map().contains_key(r->Ok_0)
                        &&& final(self).dir_handle_map().contains_key(r->Ok_0)
                        &&& final(self).dir_handle_map()[r->Ok_0].path@ == path@
                        &&& final(self).dir_handle_map()[r->Ok_0].attr == attr
                        &&& final(self).dir_handle_map() == old(self).dir_handle_map().insert(
                            r->Ok_0,
                            final(self).dir_handle_map()[r->Ok_0],
                        )
                        &&& final(self).dir_counter() == old(self).dir_counter() + 1
                    } else {
                        &&& r == Err::<u64, FsError>(FsError::TypeMismatch(FileType::Directory))
                        &&& final(self).dir_handle_map() == old(self).dir_handle_map()
                        &&& final(self).dir_counter() == old(self).dir_counter()
                    }
                },
                Err(e) => {
                    &&& r == Err::<u64, FsError>(e)
                    &&& final(self).dir_handle_map() == old(self).dir_handle_map()
                    &&& final(self).dir_counter() == old(self).dir_counter()
                },
            },
    {
        let attr = match self.getattr(path, listing, uid, gid) {
            Ok(a) => a,
            Err(e) => {
                return Err(e);
            },
        };
        match attr.kind {
            FileType::Directory => {
                let info = FsInfo { path: String::from_str(path), attr };
                let fh = self.get_dir_handle(info);
                Ok(fh)
            },
            FileType::RegularFile => Err(FsError::TypeMismatch(FileType::Directory)),
        }
    }

    /// Opens `path` as a regular file. The stat must succeed and report
    /// a file (its download locator is then in the cache); then a fresh,
    /// never-before-open handle is allocated. A directory-typed path is
    /// rejected as a type mismatch and no handle is allocated; a failed
    /// stat surfaces its failure unchanged.
    pub fn open(&mut self, path: &str, listing: Option<&Listing>, uid: u32, gid: u32) -> (r: Result<
        u64,
        FsError,
    >)
        requires
            old(self).wf(),
            old(self).file_counter() < u64::MAX,
        ensures
            final(self).wf(),
            final(self).repo_name() == old(self).repo_name(),
            final(self).dir_handle_map() == old(self).dir_handle_map(),
            final(self).dir_counter() == old(self).dir_counter(),
            final(self).locator_map() == locator_update_opt(old(self).locator_map(), path@, listing),
            match stat_opt_spec(listing, uid, gid) {
                Ok(attr) => {
                    if attr.kind == FileType::RegularFile {
                        &&& r is Ok
                        &&& r->Ok_0 != 0
                        &&& !old(self).file_handle_map().contains_key(r->Ok_0)
                        &&& final(self).file_handle_map().contains_key(r->Ok_0)
                        &&& final(self).file_handle_map()[r->Ok_0].path@ == path@
                        &&& final(self).file_handle_map()[r->Ok_0].attr == attr
                        &&& final(self).file_handle_map() == old(self).file_handle_map().insert(
                            r->Ok_0,
                            final(self).file_handle_map()[r->Ok_0],
                        )
                        &&& final(self).file_counter() == old(self).file_counter() + 1
                    } else {
                        &&& r == Err::<u64, FsError>(FsError::TypeMismatch(FileType::RegularFile))
                        &&& final(self).file_handle_map() == old(self).file_handle_map()
                        &&& final(self).file_counter() == old(self).file_counter()
                    }
                },
                Err(e) => {
                    &&& r == Err::<u64, FsError>(e)
                    &&& final(self).file_handle_map() == old(self).file_handle_map()
                    &&& final(self).file_counter() == old(self).file_counter()
                },
            },
    {
        let attr = match self.getattr(path, listing, uid, gid) {
            Ok(a) => a,
            Err(e) => {
                return Err(e);
            },
        };
        match attr.kind {
            FileType::RegularFile => {
                let info = FsInfo { path: String::from_str(path), attr };
                let fh = self.get_file_handle(info);
                Ok(fh)
            },
            FileType::Directory => Err(FsError::TypeMismatch(FileType::RegularFile)),
        }
    }

    /// Retires a directory handle. Always succeeds; a handle that is not
    /// currently open is a no-op and nothing changes.
    pub fn releasedir(&mut self, fh: u64) -> (r: Result<(), FsError>)
        requires
            old(self).wf(),
        ensures
            final(self).wf(),
            r is Ok,
            final(self).dir_handle_map() == old(self).dir_handle_map().remove(fh),
            !old(self).dir_handle_map().contains_key(fh) ==> final(self).dir_handle_map() == old(
                self,
            ).dir_handle_map(),
            final(self).file_handle_map() == old(self).file_handle_map(),
            final(self).dir_counter() == old(self).dir_counter(),
            final(self).file_counter() == old(self).file_counter(),
            final(self).locator_map() == old(self).locator_map(),
            final(self).repo_name() == old(self).repo_name(),
    {
        if self.dir_handles.contains_key(&fh) {
            self.dir_handles.remove(&fh);
        } else {
            proof {
                assert(old(self).dir_handles@.remove(fh) =~= old(self).dir_handles@);
            }
        }
        Ok(())
    }

    /// Retires a file handle. Always succeeds; a handle that is not
    /// currently open is a no-op and nothing changes.
    pub fn release(&mut self, fh: u64) -> (r: Result<(), FsError>)
        requires
            old(self).wf(),
        ensures
            final(self).wf(),
            r is Ok,
            final(self).file_handle_map() == old(self).file_handle_map().remove(fh),
            !old(self).file_handle_map().contains_key(fh) ==> final(self).file_handle_map() == old(
                self,
            ).file_handle_map(),
            final(self).dir_handle_map() == old(self).dir_handle_map(),
            final(self).dir_counter() == old(self).dir_counter(),
            final(self).file_counter() == old(self).file_counter(),
            final(self).locator_map() == old(self).locator_map(),
            final(self).repo_name() == old(self).repo_name(),
    {
        if self.file_handles.contains_key(&fh) {
            self.file_handles.remove(&fh);
        } else {
            proof {
                assert(old(self).file_handles@.remove(fh) =~= old(self).file_handles@);
            }
        }
        Ok(())
    }

    /// Lists the children the remote reports for an open directory
    /// handle: one entry per child, in the remote's order, each carrying
    /// the child's name (leading separator stripped) and its kind. The
    /// zero sentinel is rejected as an invalid handle before anything
    /// else; a missing or error answer lists as empty by design; a file
    /// answer is a type mismatch. The adapter's state is untouched.
    pub fn readdir(&self, fh: u64, listing: Option<&Listing>) -> (r: Result<Vec<ChildEntry>, FsError>)
        requires
            match listing {
                Some(l) => children_named(*l),
                None => true,
            },
        ensures
            fh == 0 ==> r == Err::<Vec<ChildEntry>, FsError>(FsError::InvalidHandle),
            fh != 0 ==> match readdir_spec(listing) {
                Ok(entries) => r is Ok && r->Ok_0@.len() == entries.len() && (forall|i: int|
                    0 <= i < entries.len() ==> (#[trigger] r->Ok_0@[i]).name@ == entries[i].0
                        && r->Ok_0@[i].kind == entries[i].1),
                Err(e) => r == Err::<Vec<ChildEntry>, FsError>(e),
            },
    {
        if fh == 0 {
            return Err(FsError::InvalidHandle);
        }
        let l = match listing {
            Some(l) => l,
            None => {
                return Ok(Vec::new());
            },
        };
        match l {
            Listing::Error(_) => Ok(Vec::new()),
            Listing::File(_) => Err(FsError::TypeMismatch(FileType::Directory)),
            Listing::Directory(di) => {
                let ghost want = di.children@.map_values(
                    |e: DirEntry| (child_name(e), child_kind(e)),
                );
                proof {
                    assert(readdir_spec(listing) == Ok::<Seq<(Seq<char>, FileType)>, FsError>(
                        want,
                    ));
                    assert(children_named(*l));
                }
                let n = di.children.len();
                let mut entries: Vec<ChildEntry> = Vec::new();
                let mut i: usize = 0;
                while i < n
                    invariant
                        0 <= i <= n,
                        n == di.children@.len(),
                        want == di.children@.map_values(
                            |e: DirEntry| (child_name(e), child_kind(e)),
                        ),
                        forall|k: int|
                            0 <= k < di.children@.len() ==> (#[trigger] di.children@[k]).uri@.len()
                                >= 1,
                        entries@.len() == i,
                        forall|j: int|
                            0 <= j < i ==> (#[trigger] entries@[j]).name@ == want[j].0
                                && entries@[j].kind == want[j].1,
                    decreases n - i,
                {
                    let child = &di.children[i];
                    let name = String::from_str(child.get_name());
                    let kind = if child.folder {
                        FileType::Directory
                    } else {
                        FileType::RegularFile
                    };
                    proof {
                        assert(want[i as int] == (child_name(di.children@[i as int]), child_kind(
                            di.children@[i as int],
                        )));
                        assert(name@ == child_name(di.children@[i as int]));
                    }
                    entries.push(ChildEntry { name, kind });
                    i = i + 1;
                }
                Ok(entries)
            },
        }
    }

    /// Resolves the download locator a read of `path` must fetch from:
    /// the locator the most recent stat of `path` recorded. A path with
    /// no cached locator means the file was never successfully opened
    /// on this adapter (a stale handle) and is rejected; the ranged
    /// fetch itself is the remote client's to perform, and the read then
    /// hands back exactly the bytes received, shorter than requested
    /// when the range runs past end of content.
    pub fn read_locator(&self, path: &str) -> (r: Result<String, FsError>)
        requires
            self.wf(),
        ensures
            self.locator_map().contains_key(path@) ==> r is Ok && r->Ok_0@
                == self.locator_map()[path@],
            !self.locator_map().contains_key(path@) ==> r == Err::<String, FsError>(
                FsError::InvalidHandle,
            ),
    {
        match self.uris.get(path) {
            Some(u) => Ok(u.clone()),
            None => Err(FsError::InvalidHandle),
        }
    }

    /// Whether `fh` is a currently open directory handle.
    pub fn has_dir_handle(&self, fh: u64) -> (r: bool)
        ensures
            r == self.dir_handle_map().contains_key(fh),
    {
        self.dir_handles.contains_key(&fh)
    }

    /// Whether `fh` is a currently open file handle.
    pub fn has_file_handle(&self, fh: u64) -> (r: bool)
        ensures
            r == self.file_handle_map().contains_key(fh),
    {
        self.file_handles.contains_key(&fh)
    }

    /// Whether the directory handle counter can still advance. Running
    /// it out would take more allocations than a 64-bit counter holds;
    /// callers test this before an open.
    pub fn dir_counter_has_room(&self) -> (r: bool)
        ensures
            r == (self.dir_counter() < u64::MAX),
    {
        self.last_dir_handle < u64::MAX
    }

    /// Whether the file handle counter can still advance.
    pub fn file_counter_has_room(&self) -> (r: bool)
        ensures
            r == (self.file_counter() < u64::MAX),
    {
        self.last_file_handle < u64::MAX
    }

    /// How many directory handles are currently open.
    pub fn open_dir_count(&self) -> (r: usize)
        ensures
            r == self.dir_handle_map().len(),
    {
        self.dir_handles.len()
    }

    /// How many file handles are currently open.
    pub fn open_file_count(&self) -> (r: usize)
        ensures
            r == self.file_handle_map().len(),
    {
        self.file_handles.len()
    }
}

/// Handles open at the same time in one table are pairwise distinct: an
/// allocation extends its table (directory or file alike) with a handle
/// absent from it, so the new handle can never equal one that was
/// already open and stays open, and both remain open afterwards.
pub proof fn lemma_concurrent_handles_distinct(
    t1: Map<u64, FsInfo>,
    t2: Map<u64, FsInfo>,
    fh1: u64,
    fh2: u64,
)
    requires
        t1.contains_key(fh1),
        !t1.contains_key(fh2),
        t2 == t1.insert(fh2, t2[fh2]),
    ensures
        fh1 != fh2,
        t2.contains_key(fh1),
        t2.contains_key(fh2),
{
}

/// After a successful stat or open of a file at `path`, the locator
/// cache binds `path` to that file's download locator, so a following
/// read for `path` resolves exactly the locator the open observed.
pub proof fn lemma_open_then_read_locator(pre: RtFS, post: RtFS, path: Seq<char>, fi: FileInfo)
    requires
        post.locator_map() == locator_update(pre.locator_map(), path, Listing::File(fi)),
    ensures
        post.locator_map().contains_key(path),
        post.locator_map()[path] == fi.download_uri@,
{
}

} // verus!
