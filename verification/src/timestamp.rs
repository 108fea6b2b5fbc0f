//! Timestamp normalization: the status document reports the repository's
//! last-modified instant as a local wall-clock string of the form
//! `YYYY-MM-DDTHH:MM:SS.ffffff`. The fractional part is required to be
//! present (its absence is a format violation) but its digits are discarded.
//! The remainder is parsed as a civil date-time, interpreted in a given
//! timezone offset, and converted to Unix epoch seconds by verified
//! arithmetic; only the local timezone offset itself is obtained from the
//! `chrono` crate.

use vstd::prelude::*;

verus! {

/// Why a last-modified string was rejected.
#[derive(Debug, Clone, Copy, PartialEq, Eq, Structural)]
pub enum TimestampError {
    /// The string holds no `.` fractional-second separator.
    MissingDot,
    /// The part before the first `.` is not a well-formed
    /// `YYYY-MM-DDTHH:MM:SS` date-time.
    BadFormat,
    /// The local wall-clock time is ambiguous or non-existent in the
    /// process's local timezone (a daylight-saving transition).
    Ambiguous,
}

/// A civil (timezone-less) date and time of day.
#[derive(Debug, Clone, Copy, PartialEq, Eq, Structural)]
pub struct DateTimeParts {
    pub year: u32,
    pub month: u32,
    pub day: u32,
    pub hour: u32,
    pub minute: u32,
    pub second: u32,
}

pub open spec fn is_digit(c: char) -> bool {
    ('0' as u32) <= (c as u32) && (c as u32) <= ('9' as u32)
}

pub open spec fn digit_val(c: char) -> int {
    (c as u32) - ('0' as u32)
}

pub open spec fn two_digit(s: Seq<char>, i: int) -> int {
    digit_val(s[i]) * 10 + digit_val(s[i + 1])
}

pub open spec fn four_digit(s: Seq<char>, i: int) -> int {
    digit_val(s[i]) * 1000 + digit_val(s[i + 1]) * 100 + digit_val(s[i + 2]) * 10 + digit_val(
        s[i + 3],
    )
}

/// The fixed 19-character shape `YYYY-MM-DDTHH:MM:SS`.
pub open spec fn stamp_syntax_ok(s: Seq<char>) -> bool {
    &&& s.len() == 19
    &&& s[4] == '-'
    &&& s[7] == '-'
    &&& s[10] == 'T'
    &&& s[13] == ':'
    &&& s[16] == ':'
    &&& is_digit(s[0]) && is_digit(s[1]) && is_digit(s[2]) && is_digit(s[3])
    &&& is_digit(s[5]) && is_digit(s[6])
    &&& is_digit(s[8]) && is_digit(s[9])
    &&& is_digit(s[11]) && is_digit(s[12])
    &&& is_digit(s[14]) && is_digit(s[15])
    &&& is_digit(s[17]) && is_digit(s[18])
}

/// The field values read out of a well-shaped stamp.
pub open spec fn stamp_parts(s: Seq<char>) -> DateTimeParts {
    DateTimeParts {
        year: four_digit(s, 0) as u32,
        month: two_digit(s, 5) as u32,
        day: two_digit(s, 8) as u32,
        hour: two_digit(s, 11) as u32,
        minute: two_digit(s, 14) as u32,
        second: two_digit(s, 17) as u32,
    }
}

pub open spec fn is_leap_year(y: int) -> bool {
    (y % 4 == 0 && y % 100 != 0) || y % 400 == 0
}

pub open spec fn days_in_month(y: int, m: int) -> int {
    if m == 2 {
        if is_leap_year(y) {
            29
        } else {
            28
        }
    } else if m == 4 || m == 6 || m == 9 || m == 11 {
        30
    } else {
        31
    }
}

/// The fields denote a real calendar date and time of day (seconds 0..=59;
/// years up to 9999, which is all the four-digit shape can carry).
pub open spec fn parts_in_range(p: DateTimeParts) -> bool {
    &&& p.year <= 9999
    &&& 1 <= p.month <= 12
    &&& 1 <= p.day <= days_in_month(p.year as int, p.month as int)
    &&& p.hour < 24
    &&& p.minute < 60
    &&& p.second < 60
}

pub open spec fn valid_stamp(s: Seq<char>) -> bool {
    stamp_syntax_ok(s) && parts_in_range(stamp_parts(s))
}

/// Days between the civil date `y-m-d` and 1970-01-01, by the standard
/// era-of-400-years computation (the year is shifted by one era so that all
/// intermediate values stay non-negative for years 0 through 9999).
pub open spec fn days_from_epoch(y: int, m: int, d: int) -> int {
    let shifted = if m <= 2 {
        y + 399
    } else {
        y + 400
    };
    let era = shifted / 400;
    let year_of_era = shifted - era * 400;
    let month_shifted = if m > 2 {
        m - 3
    } else {
        m + 9
    };
    let day_of_year = (153 * month_shifted + 2) / 5 + d - 1;
    let day_of_era = year_of_era * 365 + year_of_era / 4 - year_of_era / 100 + day_of_year;
    era * 146097 + day_of_era - 865565
}

/// Unix epoch seconds of the civil time `p` seen at UTC offset `off` seconds.
pub open spec fn epoch_of(p: DateTimeParts, off: int) -> int {
    days_from_epoch(p.year as int, p.month as int, p.day as int) * 86400 + p.hour * 3600
        + p.minute * 60 + p.second - off
}

/// Index of the first `.` in `s`, or `s.len()` when there is none.
pub open spec fn first_dot(s: Seq<char>) -> int
    decreases s.len(),
{
    if s.len() == 0 {
        0
    } else if s[0] == '.' {
        0
    } else {
        1 + first_dot(s.subrange(1, s.len() as int))
    }
}

pub open spec fn has_dot(s: Seq<char>) -> bool {
    first_dot(s) < s.len()
}

/// The stamp with everything from the first `.` on discarded.
pub open spec fn stamp_head(s: Seq<char>) -> Seq<char> {
    s.subrange(0, first_dot(s))
}

pub proof fn lemma_first_dot(s: Seq<char>)
    ensures
        0 <= first_dot(s) <= s.len(),
        first_dot(s) < s.len() ==> s[first_dot(s)] == '.',
        forall|j: int| 0 <= j < first_dot(s) ==> s[j] != '.',
    decreases s.len(),
{
    if s.len() == 0 {
    } else if s[0] == '.' {
    } else {
        let t = s.subrange(1, s.len() as int);
        lemma_first_dot(t);
        assert forall|j: int| 0 <= j < first_dot(s) implies s[j] != '.' by {
            if j > 0 {
                assert(t[j - 1] == s[j]);
            }
        }
    }
}

/// What the Normalizer yields for a last-modified string at a given UTC
/// offset: the epoch seconds of its truncated, well-formed head, or the
/// error that names what is wrong with it.
pub open spec fn spec_normalize(s: Seq<char>, off: int) -> Result<int, TimestampError> {
    if !has_dot(s) {
        Result::Err(TimestampError::MissingDot)
    } else if !valid_stamp(stamp_head(s)) {
        Result::Err(TimestampError::BadFormat)
    } else {
        Result::Ok(epoch_of(stamp_parts(stamp_head(s)), off))
    }
}

fn digit_of(c: char) -> (d: u32)
    requires
        is_digit(c),
    ensures
        d == digit_val(c),
        d <= 9,
{
    (c as u32) - ('0' as u32)
}

fn check_digit(c: char) -> (b: bool)
    ensures
        b == is_digit(c),
{
    ('0' as u32) <= (c as u32) && (c as u32) <= ('9' as u32)
}

/// Index of the first `.` of `s`, if any.
fn find_dot(s: &str) -> (r: Option<usize>)
    ensures
        r matches Some(i) ==> i == first_dot(s@) && has_dot(s@),
        r is None ==> !has_dot(s@),
{
    proof {
        lemma_first_dot(s@);
    }
    let n: usize = s.unicode_len();
    let mut i: usize = 0;
    while i < n
        invariant
            i <= n,
            n == s@.len(),
            forall|j: int| 0 <= j < i ==> s@[j] != '.',
        decreases n - i,
    {
        if s.get_char(i) == '.' {
            proof {
                lemma_first_dot(s@);
                if first_dot(s@) < i {
                    assert(s@[first_dot(s@)] != '.');
                    assert(false);
                }
                if first_dot(s@) > i {
                    assert(s@[i as int] != '.');
                    assert(false);
                }
            }
            return Some(i);
        }
        i += 1;
    }
    None
}

fn days_in_month_exec(y: u32, m: u32) -> (d: u32)
    requires
        1 <= m <= 12,
    ensures
        d == days_in_month(y as int, m as int),
{
    if m == 2 {
        if (y % 4 == 0 && y % 100 != 0) || y % 400 == 0 {
            29
        } else {
            28
        }
    } else if m == 4 || m == 6 || m == 9 || m == 11 {
        30
    } else {
        31
    }
}

/// Reads a 19-character `YYYY-MM-DDTHH:MM:SS` stamp, rejecting anything that
/// is not a real calendar date and time of day.
fn parse_stamp(head: &str) -> (r: Option<DateTimeParts>)
    ensures
        r is Some <==> valid_stamp(head@),
        r matches Some(p) ==> p == stamp_parts(head@),
{
    let n: usize = head.unicode_len();
    if n != 19 {
        return None;
    }
    if !(head.get_char(4) == '-' && head.get_char(7) == '-' && head.get_char(10) == 'T'
        && head.get_char(13) == ':' && head.get_char(16) == ':') {
        return None;
    }
    if !(check_digit(head.get_char(0)) && check_digit(head.get_char(1)) && check_digit(
        head.get_char(2),
    ) && check_digit(head.get_char(3)) && check_digit(head.get_char(5)) && check_digit(
        head.get_char(6),
    ) && check_digit(head.get_char(8)) && check_digit(head.get_char(9)) && check_digit(
        head.get_char(11),
    ) && check_digit(head.get_char(12)) && check_digit(head.get_char(14)) && check_digit(
        head.get_char(15),
    ) && check_digit(head.get_char(17)) && check_digit(head.get_char(18))) {
        return None;
    }
    let year: u32 = digit_of(head.get_char(0)) * 1000 + digit_of(head.get_char(1)) * 100
        + digit_of(head.get_char(2)) * 10 + digit_of(head.get_char(3));
    let month: u32 = digit_of(head.get_char(5)) * 10 + digit_of(head.get_char(6));
    let day: u32 = digit_of(head.get_char(8)) * 10 + digit_of(head.get_char(9));
    let hour: u32 = digit_of(head.get_char(11)) * 10 + digit_of(head.get_char(12));
    let minute: u32 = digit_of(head.get_char(14)) * 10 + digit_of(head.get_char(15));
    let second: u32 = digit_of(head.get_char(17)) * 10 + digit_of(head.get_char(18));
    let p = DateTimeParts { year, month, day, hour, minute, second };
    assert(p == stamp_parts(head@));
    if month < 1 || month > 12 {
        return None;
    }
    if day < 1 || day > days_in_month_exec(year, month) {
        return None;
    }
    if hour >= 24 || minute >= 60 || second >= 60 {
        return None;
    }
    Some(p)
}

fn days_from_epoch_exec(y: u32, m: u32, d: u32) -> (r: i64)
    requires
        y <= 9999,
        1 <= m <= 12,
        1 <= d <= 31,
    ensures
        r == days_from_epoch(y as int, m as int, d as int),
        -865565 <= r <= 2932961,
{
    let shifted: u32 = if m <= 2 {
        y + 399
    } else {
        y + 400
    };
    let era: u32 = shifted / 400;
    let year_of_era: u32 = shifted - era * 400;
    let month_shifted: u32 = if m > 2 {
        m - 3
    } else {
        m + 9
    };
    let day_of_year: u32 = (153 * month_shifted + 2) / 5 + d - 1;
    let day_of_era: u32 = year_of_era * 365 + year_of_era / 4 - year_of_era / 100 + day_of_year;
    (era as i64) * 146097 + (day_of_era as i64) - 865565
}

/// Epoch seconds of the civil time `p` seen at UTC offset `off` seconds.
fn epoch_from_parts(p: &DateTimeParts, off: i32) -> (e: i64)
    requires
        parts_in_range(*p),
    ensures
        e == epoch_of(*p, off as int),
{
    let days: i64 = days_from_epoch_exec(p.year, p.month, p.day);
    days * 86400 + (p.hour as i64) * 3600 + (p.minute as i64) * 60 + (p.second as i64) - (
    off as i64)
}

/// Normalizes a last-modified string against an explicit UTC offset given in
/// seconds: the result is exactly what `spec_normalize` states, for every
/// input string and every offset an `i32` can hold.
pub fn normalize_with_offset(last_modified: &str, offset_seconds: i32) -> (r: Result<
    i64,
    TimestampError,
>)
    ensures
        spec_normalize(last_modified@, offset_seconds as int) matches Err(e) ==> r == Err::<
            i64,
            TimestampError,
        >(e),
        spec_normalize(last_modified@, offset_seconds as int) matches Ok(v) ==> r == Ok::<
            i64,
            TimestampError,
        >(v as i64) && v == r->Ok_0 as int,
{
    let dot: usize = match find_dot(last_modified) {
        Some(i) => i,
        None => {
            return Err(TimestampError::MissingDot);
        },
    };
    proof {
        lemma_first_dot(last_modified@);
    }
    let head: &str = last_modified.substring_char(0, dot);
    let p: DateTimeParts = match parse_stamp(head) {
        Some(p) => p,
        None => {
            return Err(TimestampError::BadFormat);
        },
    };
    Ok(epoch_from_parts(&p, offset_seconds))
}

/// Relies on chrono's `NaiveDate::from_ymd_opt`, `NaiveDate::and_hms_opt` and
/// `TimeZone::from_local_datetime` on `Local`: maps a civil local date-time
/// to its UTC offset in seconds, `None` when the wall-clock time is invalid,
/// ambiguous or non-existent in the process's local timezone. A returned
/// offset is that of a `chrono::FixedOffset`, which chrono documents as
/// lying strictly between -86400 and 86400 seconds.
#[verifier::external_body]
fn local_offset_seconds(year: i32, month: u32, day: u32, hour: u32, minute: u32, second: u32) -> (r:
    Option<i32>)
    ensures
        r matches Some(off) ==> -86400 < off < 86400,
{
    let date = match chrono::NaiveDate::from_ymd_opt(year, month, day) {
        Some(d) => d,
        None => return None,
    };
    let dt = match date.and_hms_opt(hour, minute, second) {
        Some(t) => t,
        None => return None,
    };
    match chrono::TimeZone::from_local_datetime(&chrono::Local, &dt).single() {
        Some(local) => Some(local.offset().local_minus_utc()),
        None => None,
    }
}

/// Normalizes a last-modified string against the process's local timezone.
/// The rejection of malformed strings is exactly that of
/// `normalize_with_offset`; a successful result is the epoch seconds of the
/// parsed civil time at whatever valid UTC offset the local timezone gave
/// it, and a well-formed stamp fails only when that local time is ambiguous
/// or non-existent.
pub fn normalize(last_modified: &str) -> (r: Result<i64, TimestampError>)
    ensures
        !has_dot(last_modified@) ==> r == Err::<i64, TimestampError>(TimestampError::MissingDot),
        has_dot(last_modified@) && !valid_stamp(stamp_head(last_modified@)) ==> r == Err::<
            i64,
            TimestampError,
        >(TimestampError::BadFormat),
        has_dot(last_modified@) && valid_stamp(stamp_head(last_modified@)) ==> {
            &&& (r matches Ok(e) ==> exists|off: int|
                -86400 < off < 86400 && e == epoch_of(stamp_parts(stamp_head(last_modified@)), off))
            &&& (r matches Err(e) ==> e == TimestampError::Ambiguous)
        },
{
    let dot: usize = match find_dot(last_modified) {
        Some(i) => i,
        None => {
            return Err(TimestampError::MissingDot);
        },
    };
    proof {
        lemma_first_dot(last_modified@);
    }
    let head: &str = last_modified.substring_char(0, dot);
    let p: DateTimeParts = match parse_stamp(head) {
        Some(p) => p,
        None => {
            return Err(TimestampError::BadFormat);
        },
    };
    let off: i32 = match local_offset_seconds(p.year as i32, p.month, p.day, p.hour, p.minute,
        p.second) {
        Some(o) => o,
        None => {
            return Err(TimestampError::Ambiguous);
        },
    };
    let e: i64 = epoch_from_parts(&p, off);
    Ok(e)
}

} // verus!
