use vstd::prelude::*;
use vstd::string::StrSliceExecFns;

use crate::errors::FsError;
use crate::num::digit_val;
use crate::num::is_digit;

verus! {

/// A point in time: seconds since the POSIX epoch, plus nanoseconds.
#[derive(Clone, Copy, PartialEq, Eq, Structural, Debug)]
pub struct Timespec {
    pub sec: i64,
    pub nsec: i32,
}

/// The value of the two-digit decimal field of `s` starting at `i`.
pub open spec fn two_digit_val(s: Seq<char>, i: int) -> int {
    digit_val(s[i]) * 10 + digit_val(s[i + 1])
}

/// The value of the four-digit year field at the front of `s`.
pub open spec fn year_val(s: Seq<char>) -> int {
    digit_val(s[0]) * 1000 + digit_val(s[1]) * 100 + digit_val(s[2]) * 10 + digit_val(s[3])
}

/// Whether `s` begins with a well-formed remote timestamp
/// `YYYY-MM-DDTHH:MM:SS` with every field in range (month 1 to 12, day
/// 1 to 31, hour at most 23, minute and second at most 59). Characters
/// past the nineteenth — a fractional or timezone suffix — are ignored.
pub open spec fn is_timestamp(s: Seq<char>) -> bool {
    &&& s.len() >= 19
    &&& is_digit(s[0]) && is_digit(s[1]) && is_digit(s[2]) && is_digit(s[3])
    &&& s[4] == '-'
    &&& is_digit(s[5]) && is_digit(s[6])
    &&& s[7] == '-'
    &&& is_digit(s[8]) && is_digit(s[9])
    &&& s[10] == 'T'
    &&& is_digit(s[11]) && is_digit(s[12])
    &&& s[13] == ':'
    &&& is_digit(s[14]) && is_digit(s[15])
    &&& s[16] == ':'
    &&& is_digit(s[17]) && is_digit(s[18])
    &&& 1 <= two_digit_val(s, 5) <= 12
    &&& 1 <= two_digit_val(s, 8) <= 31
    &&& two_digit_val(s, 11) <= 23
    &&& two_digit_val(s, 14) <= 59
    &&& two_digit_val(s, 17) <= 59
}

/// The number of days from the POSIX epoch (1970-01-01) to the civil
/// date `y-m-d` in the proleptic Gregorian calendar, negative for dates
/// before the epoch. The computation shifts the year by 400 (one full
/// 146097-day leap cycle) so every intermediate quantity stays
/// nonnegative for years 0 through 9999.
pub open spec fn days_from_civil(y: int, m: int, d: int) -> int {
    let ys = if m <= 2 { y + 399 } else { y + 400 };
    let mp = if m > 2 { m - 3 } else { m + 9 };
    let era = ys / 400;
    let yoe = ys - era * 400;
    let doy = (153 * mp + 2) / 5 + d - 1;
    let doe = yoe * 365 + yoe / 4 - yoe / 100 + doy;
    era * 146097 + doe - 719468 - 146097
}

/// The POSIX-epoch second a well-formed timestamp string denotes, the
/// date and the time of day both read as UTC.
pub open spec fn timestamp_sec(s: Seq<char>) -> int {
    days_from_civil(year_val(s), two_digit_val(s, 5), two_digit_val(s, 8)) * 86400
        + two_digit_val(s, 11) * 3600 + two_digit_val(s, 14) * 60 + two_digit_val(s, 17)
}

/// The `Timespec` a well-formed timestamp string denotes.
pub open spec fn timestamp_spec(s: Seq<char>) -> Timespec {
    Timespec { sec: timestamp_sec(s) as i64, nsec: 0 }
}

/// Reads the two-digit decimal field of `s` starting at `i`, or `None`
/// if either character is not a digit.
fn read_two_digits(s: &str, i: usize) -> (r: Option<u32>)
    requires
        i + 2 <= s@.len(),
        s@.len() <= usize::MAX,
    ensures
        r is Some <==> is_digit(s@[i as int]) && is_digit(s@[i as int + 1]),
        r is Some ==> r->0 == two_digit_val(s@, i as int) && r->0 <= 99,
{
    let c0 = s.get_char(i) as u32;
    let c1 = s.get_char(i + 1) as u32;
    if c0 < 48 || c0 > 57 || c1 < 48 || c1 > 57 {
        return None;
    }
    Some((c0 - 48) * 10 + (c1 - 48))
}

/// Checks that the character of `s` at `i` is `expected`.
fn expect_char(s: &str, i: usize, expected: char) -> (r: bool)
    requires
        i < s@.len(),
    ensures
        r == (s@[i as int] == expected),
{
    s.get_char(i) == expected
}

/// Parses a remote timestamp `YYYY-MM-DDTHH:MM:SS` (a fractional or
/// timezone suffix, if present, is ignored) into seconds since the POSIX
/// epoch, reading the fields as a UTC civil date and time of day.
/// Fails with `MalformedMetadata` exactly when the string is shorter
/// than nineteen characters, a field holds a non-digit, a separator is
/// wrong, or a field is out of range.
pub fn parse_timestamp(s: &str) -> (r: Result<Timespec, FsError>)
    ensures
        r is Ok <==> is_timestamp(s@),
        r is Ok ==> r->Ok_0 == timestamp_spec(s@),
        r is Err ==> r->Err_0 == FsError::MalformedMetadata,
{
    let len: usize = s.unicode_len();
    if len < 19 {
        return Err(FsError::MalformedMetadata);
    }
    let y_hi = match read_two_digits(s, 0) {
        Some(v) => v,
        None => { return Err(FsError::MalformedMetadata); },
    };
    let y_lo = match read_two_digits(s, 2) {
        Some(v) => v,
        None => { return Err(FsError::MalformedMetadata); },
    };
    if !expect_char(s, 4, '-') {
        return Err(FsError::MalformedMetadata);
    }
    let month = match read_two_digits(s, 5) {
        Some(v) => v,
        None => { return Err(FsError::MalformedMetadata); },
    };
    if !expect_char(s, 7, '-') {
        return Err(FsError::MalformedMetadata);
    }
    let day = match read_two_digits(s, 8) {
        Some(v) => v,
        None => { return Err(FsError::MalformedMetadata); },
    };
    if !expect_char(s, 10, 'T') {
        return Err(FsError::MalformedMetadata);
    }
    let hour = match read_two_digits(s, 11) {
        Some(v) => v,
        None => { return Err(FsError::MalformedMetadata); },
    };
    if !expect_char(s, 13, ':') {
        return Err(FsError::MalformedMetadata);
    }
    let minute = match read_two_digits(s, 14) {
        Some(v) => v,
        None => { return Err(FsError::MalformedMetadata); },
    };
    if !expect_char(s, 16, ':') {
        return Err(FsError::MalformedMetadata);
    }
    let second = match read_two_digits(s, 17) {
        Some(v) => v,
        None => { return Err(FsError::MalformedMetadata); },
    };
    if month < 1 || month > 12 || day < 1 || day > 31 || hour > 23 || minute > 59 || second > 59 {
        return Err(FsError::MalformedMetadata);
    }

    let year: i64 = (y_hi as i64) * 100 + (y_lo as i64);
    proof {
        assert(year == year_val(s@));
        assert(is_timestamp(s@));
    }
    let m: i64 = month as i64;
    let d: i64 = day as i64;
    let ys: i64 = if m <= 2 { year + 399 } else { year + 400 };
    let mp: i64 = if m > 2 { m - 3 } else { m + 9 };
    let era: i64 = ys / 400;
    let yoe: i64 = ys - era * 400;
    proof {
        assert(0 <= era <= 25 && 0 <= yoe < 400) by {
            assert(399 <= ys <= 10399);
            assert(ys == 400 * (ys / 400) + ys % 400) by (nonlinear_arith);
            assert(0 <= ys % 400 < 400) by (nonlinear_arith);
        }
    }
    let doy: i64 = (153 * mp + 2) / 5 + d - 1;
    let doe: i64 = yoe * 365 + yoe / 4 - yoe / 100 + doy;
    let days: i64 = era * 146097 + doe - 719468 - 146097;
    proof {
        assert(0 <= yoe * 365 <= 399 * 365) by (nonlinear_arith)
            requires
                0 <= yoe < 400,
        ;
        assert(days == days_from_civil(year as int, m as int, d as int));
    }
    let sec: i64 = days * 86400 + (hour as i64) * 3600 + (minute as i64) * 60 + (second as i64);
    proof {
        assert(-800000 <= days <= 3000000) by {
            assert(0 <= era * 146097 <= 25 * 146097) by (nonlinear_arith)
                requires
                    0 <= era <= 25,
            ;
        }
        assert(sec == timestamp_sec(s@));
    }
    Ok(Timespec { sec, nsec: 0 })
}

} // verus!
