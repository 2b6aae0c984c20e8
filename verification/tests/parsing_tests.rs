use rtfs::auth::basic_auth_header;
use rtfs::errors::FsError;
use rtfs::listing::DirEntry;
use rtfs::num::parse_u64;
use rtfs::timestamp::parse_timestamp;

#[test]
fn parse_u64_plain_values() {
    assert_eq!(parse_u64("0"), Some(0));
    assert_eq!(parse_u64("7"), Some(7));
    assert_eq!(parse_u64("1024"), Some(1024));
    assert_eq!(parse_u64("0042"), Some(42));
}

#[test]
fn parse_u64_limit_values() {
    assert_eq!(parse_u64("18446744073709551615"), Some(u64::MAX));
    assert_eq!(parse_u64("18446744073709551616"), None);
    assert_eq!(parse_u64("99999999999999999999999"), None);
}

#[test]
fn parse_u64_rejects_non_digits() {
    assert_eq!(parse_u64(""), None);
    assert_eq!(parse_u64("12a4"), None);
    assert_eq!(parse_u64("-3"), None);
    assert_eq!(parse_u64(" 12"), None);
    assert_eq!(parse_u64("1 "), None);
}

#[test]
fn timestamp_epoch_is_zero() {
    let t = parse_timestamp("1970-01-01T00:00:00").unwrap();
    assert_eq!(t.sec, 0);
    assert_eq!(t.nsec, 0);
}

#[test]
fn timestamp_exact_values() {
    assert_eq!(parse_timestamp("2020-01-01T00:00:00").unwrap().sec, 1577836800);
    assert_eq!(parse_timestamp("2000-03-01T00:00:00").unwrap().sec, 951868800);
    assert_eq!(parse_timestamp("2016-02-29T12:00:00").unwrap().sec, 1456747200);
    assert_eq!(parse_timestamp("1969-12-31T23:59:59").unwrap().sec, -1);
}

#[test]
fn timestamp_time_of_day_is_added() {
    let t = parse_timestamp("2020-01-01T01:02:03").unwrap();
    assert_eq!(t.sec, 1577836800 + 3600 + 120 + 3);
}

#[test]
fn timestamp_suffix_is_ignored() {
    let plain = parse_timestamp("2020-06-15T10:20:30").unwrap();
    let suffixed = parse_timestamp("2020-06-15T10:20:30.123Z").unwrap();
    assert_eq!(plain, suffixed);
}

#[test]
fn timestamp_malformed_strings_are_rejected() {
    assert_eq!(parse_timestamp("").unwrap_err(), FsError::MalformedMetadata);
    assert_eq!(parse_timestamp("2020-01-01").unwrap_err(), FsError::MalformedMetadata);
    assert_eq!(parse_timestamp("2020/01/01T00:00:00").unwrap_err(), FsError::MalformedMetadata);
    assert_eq!(parse_timestamp("2020-13-01T00:00:00").unwrap_err(), FsError::MalformedMetadata);
    assert_eq!(parse_timestamp("2020-00-01T00:00:00").unwrap_err(), FsError::MalformedMetadata);
    assert_eq!(parse_timestamp("2020-01-00T00:00:00").unwrap_err(), FsError::MalformedMetadata);
    assert_eq!(parse_timestamp("2020-01-32T00:00:00").unwrap_err(), FsError::MalformedMetadata);
    assert_eq!(parse_timestamp("2020-01-01T24:00:00").unwrap_err(), FsError::MalformedMetadata);
    assert_eq!(parse_timestamp("2020-01-01T00:60:00").unwrap_err(), FsError::MalformedMetadata);
    assert_eq!(parse_timestamp("2020-01-01T00:00:60").unwrap_err(), FsError::MalformedMetadata);
    assert_eq!(parse_timestamp("2020-01-01x00:00:00").unwrap_err(), FsError::MalformedMetadata);
    assert_eq!(parse_timestamp("20a0-01-01T00:00:00").unwrap_err(), FsError::MalformedMetadata);
}

#[test]
fn dir_entry_name_strips_leading_separator() {
    let e = DirEntry { folder: true, uri: String::from("/org") };
    assert_eq!(e.get_name(), "org");
    let f = DirEntry { folder: false, uri: String::from("/lib.jar") };
    assert_eq!(f.get_name(), "lib.jar");
}

#[test]
fn basic_auth_header_encodes_user_and_token() {
    // "user:token" in base64 is dXNlcjp0b2tlbg==
    assert_eq!(basic_auth_header("user", "token"), "Basic dXNlcjp0b2tlbg==");
    // The empty pair still encodes the separating colon.
    assert_eq!(basic_auth_header("", ""), "Basic Og==");
}
