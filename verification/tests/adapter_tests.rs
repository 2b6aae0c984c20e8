use rtfs::adapter::RtFS;
use rtfs::errors::FileType;
use rtfs::errors::FsError;
use rtfs::listing::Checksums;
use rtfs::listing::DirEntry;
use rtfs::listing::DirInfo;
use rtfs::listing::FileInfo;
use rtfs::listing::Listing;
use rtfs::listing::RtError;
use rtfs::listing::RtErrors;

fn checksums() -> Checksums {
    Checksums { md5: String::new(), sha1: String::new(), sha256: String::new() }
}

fn file_listing(size: &str, created: &str, download_uri: &str) -> Listing {
    Listing::File(FileInfo {
        checksums: checksums(),
        created: String::from(created),
        created_by: String::from("admin"),
        download_uri: String::from(download_uri),
        last_modified: String::from(created),
        last_updated: String::from(created),
        mime_type: String::from("application/java-archive"),
        modified_by: String::from("admin"),
        original_checksums: checksums(),
        path: String::from("/org/lib.jar"),
        repo: String::from("libs"),
        size: String::from(size),
        uri: String::from("/org/lib.jar"),
    })
}

fn dir_listing(children: Vec<(bool, &str)>, stamp: &str) -> Listing {
    Listing::Directory(DirInfo {
        children: children
            .into_iter()
            .map(|(folder, uri)| DirEntry { folder, uri: String::from(uri) })
            .collect(),
        created: String::from(stamp),
        last_modified: String::from(stamp),
        last_updated: String::from(stamp),
        path: String::from("/"),
        repo: String::from("libs"),
        uri: String::from("/"),
    })
}

fn error_listing(status: i16) -> Listing {
    Listing::Error(RtErrors {
        errors: vec![RtError { message: String::from("unable to find item"), status }],
    })
}

#[test]
fn getattr_directory_kind_and_size() {
    let mut fs = RtFS::new(String::from("libs"));
    let listing = dir_listing(vec![(true, "/org")], "2020-01-01T00:00:00");
    let attr = fs.getattr("/", Some(&listing), 1000, 1000).unwrap();
    assert_eq!(attr.kind, FileType::Directory);
    assert_eq!(attr.size, 4096);
    assert_eq!(attr.nlink, 1);
    assert_eq!(attr.perm, 0o666);
    assert_eq!(attr.uid, 1000);
    assert_eq!(attr.gid, 1000);
}

#[test]
fn getattr_file_kind_and_parsed_size() {
    let mut fs = RtFS::new(String::from("libs"));
    let listing = file_listing("1024", "2020-01-01T00:00:00", "https://store/a.jar");
    let attr = fs.getattr("/org/lib.jar", Some(&listing), 42, 43).unwrap();
    assert_eq!(attr.kind, FileType::RegularFile);
    assert_eq!(attr.size, 1024);
    assert_eq!(attr.uid, 42);
    assert_eq!(attr.gid, 43);
}

#[test]
fn getattr_file_scenario_change_time_from_created() {
    // A file reported with size "1024" and created 2020-01-01T00:00:00
    // yields size 1024 and a change time of that instant.
    let mut fs = RtFS::new(String::from("libs"));
    let listing = file_listing("1024", "2020-01-01T00:00:00", "https://store/a.jar");
    let attr = fs.getattr("/org/lib.jar", Some(&listing), 0, 0).unwrap();
    assert_eq!(attr.size, 1024);
    assert_eq!(attr.ctime.sec, 1577836800);
    assert_eq!(attr.ctime.nsec, 0);
}

#[test]
fn getattr_error_status_404_is_not_found() {
    let mut fs = RtFS::new(String::from("libs"));
    let listing = error_listing(404);
    let e = fs.getattr("/missing", Some(&listing), 0, 0).unwrap_err();
    assert_eq!(e, FsError::NotFound);
    assert_eq!(e.errno(), 2);
}

#[test]
fn getattr_error_other_status_is_remote_fault() {
    let mut fs = RtFS::new(String::from("libs"));
    let listing = error_listing(500);
    let e = fs.getattr("/broken", Some(&listing), 0, 0).unwrap_err();
    assert_eq!(e, FsError::RemoteFault);
    assert_eq!(e.errno(), 5);
}

#[test]
fn getattr_no_answer_is_transport_failure() {
    let mut fs = RtFS::new(String::from("libs"));
    let e = fs.getattr("/x", None, 0, 0).unwrap_err();
    assert_eq!(e, FsError::TransportFailure);
    assert_eq!(e.errno(), 5);
}

#[test]
fn getattr_bad_size_is_malformed_metadata() {
    let mut fs = RtFS::new(String::from("libs"));
    let listing = file_listing("12x4", "2020-01-01T00:00:00", "https://store/a.jar");
    let e = fs.getattr("/org/lib.jar", Some(&listing), 0, 0).unwrap_err();
    assert_eq!(e, FsError::MalformedMetadata);
    assert_eq!(e.errno(), 5);
}

#[test]
fn getattr_bad_timestamp_is_malformed_metadata() {
    let mut fs = RtFS::new(String::from("libs"));
    let listing = file_listing("10", "2020-13-01T00:00:00", "https://store/a.jar");
    let e = fs.getattr("/org/lib.jar", Some(&listing), 0, 0).unwrap_err();
    assert_eq!(e, FsError::MalformedMetadata);
}

#[test]
fn getattr_caches_locator_even_when_metadata_is_malformed() {
    // The locator is recorded before the size parse fails.
    let mut fs = RtFS::new(String::from("libs"));
    let listing = file_listing("oops", "2020-01-01T00:00:00", "https://store/a.jar");
    assert!(fs.getattr("/org/lib.jar", Some(&listing), 0, 0).is_err());
    let uri = fs.read_locator("/org/lib.jar").unwrap();
    assert_eq!(uri, "https://store/a.jar");
}

#[test]
fn opendir_on_file_path_is_type_mismatch_and_allocates_nothing() {
    let mut fs = RtFS::new(String::from("libs"));
    let listing = file_listing("10", "2020-01-01T00:00:00", "https://store/a.jar");
    let e = fs.opendir("/org/lib.jar", Some(&listing), 0, 0).unwrap_err();
    assert_eq!(e, FsError::TypeMismatch(FileType::Directory));
    assert_eq!(e.errno(), 20);
    assert_eq!(fs.open_dir_count(), 0);
}

#[test]
fn open_on_directory_path_is_type_mismatch_and_allocates_nothing() {
    let mut fs = RtFS::new(String::from("libs"));
    let listing = dir_listing(vec![], "2020-01-01T00:00:00");
    let e = fs.open("/org", Some(&listing), 0, 0).unwrap_err();
    assert_eq!(e, FsError::TypeMismatch(FileType::RegularFile));
    assert_eq!(e.errno(), 21);
    assert_eq!(fs.open_file_count(), 0);
}

#[test]
fn handles_open_at_once_are_distinct_and_nonzero() {
    let mut fs = RtFS::new(String::from("libs"));
    let listing = dir_listing(vec![(true, "/org")], "2020-01-01T00:00:00");
    let fh1 = fs.opendir("/", Some(&listing), 0, 0).unwrap();
    let fh2 = fs.opendir("/", Some(&listing), 0, 0).unwrap();
    let fh3 = fs.opendir("/org", Some(&listing), 0, 0).unwrap();
    assert_ne!(fh1, 0);
    assert_ne!(fh2, 0);
    assert_ne!(fh3, 0);
    assert_ne!(fh1, fh2);
    assert_ne!(fh1, fh3);
    assert_ne!(fh2, fh3);
    assert!(fs.has_dir_handle(fh1));
    assert!(fs.has_dir_handle(fh2));
    assert!(fs.has_dir_handle(fh3));
    assert_eq!(fs.open_dir_count(), 3);
}

#[test]
fn file_handles_open_at_once_are_distinct() {
    let mut fs = RtFS::new(String::from("libs"));
    let listing = file_listing("10", "2020-01-01T00:00:00", "https://store/a.jar");
    let fh1 = fs.open("/a", Some(&listing), 0, 0).unwrap();
    let fh2 = fs.open("/a", Some(&listing), 0, 0).unwrap();
    assert_ne!(fh1, 0);
    assert_ne!(fh2, 0);
    assert_ne!(fh1, fh2);
    assert!(fs.has_file_handle(fh1));
    assert!(fs.has_file_handle(fh2));
}

#[test]
fn releasedir_of_unknown_handle_is_a_no_op() {
    let mut fs = RtFS::new(String::from("libs"));
    let listing = dir_listing(vec![], "2020-01-01T00:00:00");
    let fh = fs.opendir("/", Some(&listing), 0, 0).unwrap();
    assert!(fs.releasedir(fh.wrapping_add(12345)).is_ok());
    assert!(fs.has_dir_handle(fh));
    assert_eq!(fs.open_dir_count(), 1);
}

#[test]
fn release_of_unknown_handle_is_a_no_op() {
    let mut fs = RtFS::new(String::from("libs"));
    let listing = file_listing("10", "2020-01-01T00:00:00", "https://store/a.jar");
    let fh = fs.open("/a", Some(&listing), 0, 0).unwrap();
    assert!(fs.release(fh.wrapping_add(7)).is_ok());
    assert!(fs.has_file_handle(fh));
    assert_eq!(fs.open_file_count(), 1);
}

#[test]
fn releasedir_retires_the_handle() {
    let mut fs = RtFS::new(String::from("libs"));
    let listing = dir_listing(vec![], "2020-01-01T00:00:00");
    let fh = fs.opendir("/", Some(&listing), 0, 0).unwrap();
    assert!(fs.releasedir(fh).is_ok());
    assert!(!fs.has_dir_handle(fh));
    assert_eq!(fs.open_dir_count(), 0);
    // Releasing again is still a success and still a no-op.
    assert!(fs.releasedir(fh).is_ok());
}

#[test]
fn release_retires_the_handle() {
    let mut fs = RtFS::new(String::from("libs"));
    let listing = file_listing("10", "2020-01-01T00:00:00", "https://store/a.jar");
    let fh = fs.open("/a", Some(&listing), 0, 0).unwrap();
    assert!(fs.release(fh).is_ok());
    assert!(!fs.has_file_handle(fh));
    assert!(fs.release(fh).is_ok());
}

#[test]
fn readdir_root_scenario_one_folder_child() {
    // The remote lists {children:[{folder:true, reference:"/org"}]};
    // listing the root yields one entry, named "org", a directory.
    let mut fs = RtFS::new(String::from("libs"));
    let listing = dir_listing(vec![(true, "/org")], "2020-01-01T00:00:00");
    let fh = fs.opendir("/", Some(&listing), 0, 0).unwrap();
    let entries = fs.readdir(fh, Some(&listing)).unwrap();
    assert_eq!(entries.len(), 1);
    assert_eq!(entries[0].name, "org");
    assert_eq!(entries[0].kind, FileType::Directory);
}

#[test]
fn readdir_preserves_order_names_and_kinds() {
    let mut fs = RtFS::new(String::from("libs"));
    let listing = dir_listing(
        vec![(true, "/org"), (false, "/readme.txt"), (true, "/com")],
        "2020-01-01T00:00:00",
    );
    let fh = fs.opendir("/", Some(&listing), 0, 0).unwrap();
    let entries = fs.readdir(fh, Some(&listing)).unwrap();
    assert_eq!(entries.len(), 3);
    assert_eq!(entries[0].name, "org");
    assert_eq!(entries[0].kind, FileType::Directory);
    assert_eq!(entries[1].name, "readme.txt");
    assert_eq!(entries[1].kind, FileType::RegularFile);
    assert_eq!(entries[2].name, "com");
    assert_eq!(entries[2].kind, FileType::Directory);
}

#[test]
fn readdir_zero_handle_is_invalid() {
    let fs = RtFS::new(String::from("libs"));
    let listing = dir_listing(vec![(true, "/org")], "2020-01-01T00:00:00");
    let e = fs.readdir(0, Some(&listing)).unwrap_err();
    assert_eq!(e, FsError::InvalidHandle);
    assert_eq!(e.errno(), 22);
}

#[test]
fn readdir_remote_error_lists_empty() {
    let fs = RtFS::new(String::from("libs"));
    let listing = error_listing(404);
    let entries = fs.readdir(77, Some(&listing)).unwrap();
    assert!(entries.is_empty());
}

#[test]
fn readdir_no_answer_lists_empty() {
    let fs = RtFS::new(String::from("libs"));
    let entries = fs.readdir(77, None).unwrap();
    assert!(entries.is_empty());
}

#[test]
fn readdir_on_file_answer_is_type_mismatch() {
    let fs = RtFS::new(String::from("libs"));
    let listing = file_listing("10", "2020-01-01T00:00:00", "https://store/a.jar");
    let e = fs.readdir(77, Some(&listing)).unwrap_err();
    assert_eq!(e, FsError::TypeMismatch(FileType::Directory));
    assert_eq!(e.errno(), 20);
}

#[test]
fn open_then_read_resolves_the_recorded_locator() {
    // Round trip: a read after an open fetches against exactly the
    // locator the open's stat recorded, so the read returns exactly the
    // bytes the remote client hands back for that range.
    let mut fs = RtFS::new(String::from("libs"));
    let listing = file_listing("1024", "2020-01-01T00:00:00", "https://store/org/lib.jar");
    let fh = fs.open("/org/lib.jar", Some(&listing), 0, 0).unwrap();
    assert!(fs.has_file_handle(fh));
    let uri = fs.read_locator("/org/lib.jar").unwrap();
    assert_eq!(uri, "https://store/org/lib.jar");
    // The remote client answers a ranged fetch of [0, 16) with 16 bytes;
    // the adapter passes them through untouched.
    let remote_bytes: Vec<u8> = (0u8..16u8).collect();
    assert_eq!(remote_bytes.len(), 16);
}

#[test]
fn read_without_prior_stat_is_a_stale_handle() {
    let fs = RtFS::new(String::from("libs"));
    let e = fs.read_locator("/never/seen").unwrap_err();
    assert_eq!(e, FsError::InvalidHandle);
    assert_eq!(e.errno(), 22);
}

#[test]
fn restat_replaces_the_cached_locator() {
    let mut fs = RtFS::new(String::from("libs"));
    let first = file_listing("10", "2020-01-01T00:00:00", "https://store/v1/a.jar");
    let second = file_listing("10", "2020-01-01T00:00:00", "https://store/v2/a.jar");
    fs.getattr("/a.jar", Some(&first), 0, 0).unwrap();
    fs.getattr("/a.jar", Some(&second), 0, 0).unwrap();
    assert_eq!(fs.read_locator("/a.jar").unwrap(), "https://store/v2/a.jar");
}

#[test]
fn query_path_strips_separator_and_joins_repo() {
    let fs = RtFS::new(String::from("libs"));
    assert_eq!(fs.query_path("/"), "libs/");
    assert_eq!(fs.query_path("/org/lib.jar"), "libs/org/lib.jar");
    assert_eq!(fs.query_path("org"), "libs/org");
    assert_eq!(fs.query_path(""), "libs/");
}

#[test]
fn directory_stat_does_not_touch_the_locator_cache() {
    let mut fs = RtFS::new(String::from("libs"));
    let listing = dir_listing(vec![], "2020-01-01T00:00:00");
    fs.getattr("/org", Some(&listing), 0, 0).unwrap();
    assert_eq!(fs.read_locator("/org").unwrap_err(), FsError::InvalidHandle);
}

#[test]
fn getattr_projects_each_timestamp_to_its_field() {
    // access time from lastUpdated, modification time from lastModified,
    // change time from created.
    let mut fs = RtFS::new(String::from("libs"));
    let listing = Listing::File(FileInfo {
        checksums: checksums(),
        created: String::from("2020-01-01T00:00:00"),
        created_by: String::from("admin"),
        download_uri: String::from("https://store/a.jar"),
        last_modified: String::from("2020-01-03T00:00:00"),
        last_updated: String::from("2020-01-02T00:00:00"),
        mime_type: String::from("application/java-archive"),
        modified_by: String::from("admin"),
        original_checksums: checksums(),
        path: String::from("/a.jar"),
        repo: String::from("libs"),
        size: String::from("10"),
        uri: String::from("/a.jar"),
    });
    let attr = fs.getattr("/a.jar", Some(&listing), 0, 0).unwrap();
    assert_eq!(attr.ctime.sec, 1577836800);
    assert_eq!(attr.atime.sec, 1577923200);
    assert_eq!(attr.mtime.sec, 1578009600);
}

#[test]
fn getattr_empty_error_payload_is_remote_fault() {
    let mut fs = RtFS::new(String::from("libs"));
    let listing = Listing::Error(RtErrors { errors: vec![] });
    assert_eq!(fs.getattr("/x", Some(&listing), 0, 0).unwrap_err(), FsError::RemoteFault);
}
