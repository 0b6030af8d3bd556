//! The leading-timestamp grammar of a log line.
//!
//! A meaningful line starts (after optional whitespace) with a local-time
//! stamp of the form `YYYY-MM-DD HH:MM:SS`: a ten-character date token, then
//! whitespace, then an eight-character time token ending the token run. The
//! grammar and the calendar validity check are verified here; only the
//! conversion of a local wall-clock reading to UTC milliseconds, which
//! depends on the machine's time zone, is delegated to an outside crate.
use vstd::prelude::*;

verus! {

/// Whitespace as a token separator.
pub open spec fn is_space(c: char) -> bool {
    c == ' ' || c == '\t' || c == '\r' || c == '\n'
}

/// An ASCII decimal digit.
pub open spec fn is_digit(c: char) -> bool {
    48 <= c as u32 && c as u32 <= 57
}

/// Numeric value of an ASCII digit.
pub open spec fn digit_val(c: char) -> int {
    c as u32 - 48
}

/// First index at or after `i` that does not hold whitespace (or the end).
pub open spec fn skip_spaces(s: Seq<char>, i: int) -> int
    decreases s.len() - i,
{
    if 0 <= i && i < s.len() && is_space(s[i]) {
        skip_spaces(s, i + 1)
    } else {
        i
    }
}

/// A `YYYY-MM-DD` date token starts at index `i`.
pub open spec fn date_shape_at(s: Seq<char>, i: int) -> bool {
    &&& 0 <= i
    &&& i + 10 <= s.len()
    &&& is_digit(s[i]) && is_digit(s[i + 1]) && is_digit(s[i + 2]) && is_digit(s[i + 3])
    &&& s[i + 4] == '-'
    &&& is_digit(s[i + 5]) && is_digit(s[i + 6])
    &&& s[i + 7] == '-'
    &&& is_digit(s[i + 8]) && is_digit(s[i + 9])
}

/// An `HH:MM:SS` time token starts at index `i`.
pub open spec fn time_shape_at(s: Seq<char>, i: int) -> bool {
    &&& 0 <= i
    &&& i + 8 <= s.len()
    &&& is_digit(s[i]) && is_digit(s[i + 1])
    &&& s[i + 2] == ':'
    &&& is_digit(s[i + 3]) && is_digit(s[i + 4])
    &&& s[i + 5] == ':'
    &&& is_digit(s[i + 6]) && is_digit(s[i + 7])
}

/// Value of the two digits at `i` and `i + 1`.
pub open spec fn two_digit_val(s: Seq<char>, i: int) -> int {
    digit_val(s[i]) * 10 + digit_val(s[i + 1])
}

/// Value of the four digits starting at `i`.
pub open spec fn four_digit_val(s: Seq<char>, i: int) -> int {
    digit_val(s[i]) * 1000 + digit_val(s[i + 1]) * 100 + digit_val(s[i + 2]) * 10 + digit_val(
        s[i + 3],
    )
}

/// A wall-clock reading taken from a log line, field by field.
#[derive(Clone, Copy, Debug, PartialEq, Eq, Structural)]
pub struct DateTimeParts {
    pub year: u32,
    pub month: u32,
    pub day: u32,
    pub hour: u32,
    pub minute: u32,
    pub second: u32,
}

/// Leap years of the proleptic Gregorian calendar.
pub open spec fn is_leap_year(y: int) -> bool {
    y % 4 == 0 && (y % 100 != 0 || y % 400 == 0)
}

/// Number of days of month `m` in year `y`.
pub open spec fn days_in_month(y: int, m: int) -> int {
    if m == 2 {
        if is_leap_year(y) {
            29
        } else {
            28
        }
    } else if m == 4 || m == 6 || m == 9 || m == 11 {
        30
    } else {
        31
    }
}

/// The fields name a real calendar date and a time of day.
pub open spec fn valid_parts(p: DateTimeParts) -> bool {
    &&& 1 <= p.month <= 12
    &&& 1 <= p.day <= days_in_month(p.year as int, p.month as int)
    &&& p.hour < 24
    &&& p.minute < 60
    &&& p.second < 60
}

/// The timestamp carried by the line's first two tokens, if they form a
/// valid `YYYY-MM-DD HH:MM:SS` stamp.
pub open spec fn timestamp_prefix(s: Seq<char>) -> Option<DateTimeParts> {
    let i0 = skip_spaces(s, 0);
    if date_shape_at(s, i0) && i0 + 10 < s.len() && is_space(s[i0 + 10]) {
        let i1 = skip_spaces(s, i0 + 10);
        if time_shape_at(s, i1) && (i1 + 8 == s.len() || is_space(s[i1 + 8])) {
            let p = DateTimeParts {
                year: four_digit_val(s, i0) as u32,
                month: two_digit_val(s, i0 + 5) as u32,
                day: two_digit_val(s, i0 + 8) as u32,
                hour: two_digit_val(s, i1) as u32,
                minute: two_digit_val(s, i1 + 3) as u32,
                second: two_digit_val(s, i1 + 6) as u32,
            };
            if valid_parts(p) {
                Some(p)
            } else {
                None
            }
        } else {
            None
        }
    } else {
        None
    }
}

/// Decides `is_space`.
fn is_space_c(c: char) -> (r: bool)
    ensures
        r == is_space(c),
{
    c == ' ' || c == '\t' || c == '\r' || c == '\n'
}

/// Decides `is_digit`.
fn is_digit_c(c: char) -> (r: bool)
    ensures
        r == is_digit(c),
{
    let u = c as u32;
    48 <= u && u <= 57
}

/// Reads the two-digit number at `i`; fails unless both are digits.
fn read_two_digits(s: &str, n: usize, i: usize) -> (r: Option<u32>)
    requires
        n == s@.len(),
        i + 2 <= n,
    ensures
        (r is Some) == (is_digit(s@[i as int]) && is_digit(s@[i as int + 1])),
        r matches Some(v) ==> v == two_digit_val(s@, i as int),
{
    let c0 = s.get_char(i);
    let c1 = s.get_char(i + 1);
    if is_digit_c(c0) && is_digit_c(c1) {
        Some((c0 as u32 - 48) * 10 + (c1 as u32 - 48))
    } else {
        None
    }
}

/// Decides `valid_parts`.
fn check_valid_parts(p: &DateTimeParts) -> (r: bool)
    ensures
        r == valid_parts(*p),
{
    if p.month < 1 || p.month > 12 || p.hour >= 24 || p.minute >= 60 || p.second >= 60 {
        return false;
    }
    let leap = p.year % 4 == 0 && (p.year % 100 != 0 || p.year % 400 == 0);
    let days: u32 = if p.month == 2 {
        if leap {
            29
        } else {
            28
        }
    } else if p.month == 4 || p.month == 6 || p.month == 9 || p.month == 11 {
        30
    } else {
        31
    };
    1 <= p.day && p.day <= days
}

/// Parses the line's leading timestamp; returns exactly what the grammar
/// `timestamp_prefix` admits.
pub fn parse_timestamp_parts(line: &str) -> (r: Option<DateTimeParts>)
    ensures
        r == timestamp_prefix(line@),
{
    let n = line.unicode_len();
    let mut i0: usize = 0;
    while i0 < n && is_space_c(line.get_char(i0))
        invariant
            n == line@.len(),
            i0 <= n,
            skip_spaces(line@, 0) == skip_spaces(line@, i0 as int),
        decreases n - i0,
    {
        i0 += 1;
    }
    proof {
        assert(skip_spaces(line@, i0 as int) == i0);
    }
    if n - i0 < 11 {
        return None;
    }
    let year = match read_two_digits(line, n, i0) {
        Some(hi) => match read_two_digits(line, n, i0 + 2) {
            Some(lo) => hi * 100 + lo,
            None => {
                return None;
            },
        },
        None => {
            return None;
        },
    };
    if line.get_char(i0 + 4) != '-' || line.get_char(i0 + 7) != '-' {
        return None;
    }
    let month = match read_two_digits(line, n, i0 + 5) {
        Some(v) => v,
        None => {
            return None;
        },
    };
    let day = match read_two_digits(line, n, i0 + 8) {
        Some(v) => v,
        None => {
            return None;
        },
    };
    if !is_space_c(line.get_char(i0 + 10)) {
        return None;
    }
    let mut i1: usize = i0 + 10;
    while i1 < n && is_space_c(line.get_char(i1))
        invariant
            n == line@.len(),
            i1 <= n,
            skip_spaces(line@, i0 + 10) == skip_spaces(line@, i1 as int),
        decreases n - i1,
    {
        i1 += 1;
    }
    proof {
        assert(skip_spaces(line@, i1 as int) == i1);
    }
    if n - i1 < 8 {
        return None;
    }
    let hour = match read_two_digits(line, n, i1) {
        Some(v) => v,
        None => {
            return None;
        },
    };
    if line.get_char(i1 + 2) != ':' || line.get_char(i1 + 5) != ':' {
        return None;
    }
    let minute = match read_two_digits(line, n, i1 + 3) {
        Some(v) => v,
        None => {
            return None;
        },
    };
    let second = match read_two_digits(line, n, i1 + 6) {
        Some(v) => v,
        None => {
            return None;
        },
    };
    if i1 + 8 < n && !is_space_c(line.get_char(i1 + 8)) {
        return None;
    }
    let p = DateTimeParts { year, month, day, hour, minute, second };
    if check_valid_parts(&p) {
        Some(p)
    } else {
        None
    }
}

/// Relies on chrono's `NaiveDate::from_ymd_opt`, `NaiveDate::and_hms_opt`,
/// `NaiveDateTime::and_local_timezone` with `Local`, and
/// `DateTime::timestamp_millis`: the UTC offset applied to the wall-clock
/// fields depends on the machine's time zone, so nothing is promised of the
/// result; the caller treats every outcome alike.
#[verifier::external_body]
pub(crate) fn local_parts_to_utc_ms(p: &DateTimeParts) -> Option<i64> {
    let date = match chrono::NaiveDate::from_ymd_opt(p.year as i32, p.month, p.day) {
        Some(d) => d,
        None => return None,
    };
    let ndt = match date.and_hms_opt(p.hour, p.minute, p.second) {
        Some(t) => t,
        None => return None,
    };
    match ndt.and_local_timezone(chrono::Local).single() {
        Some(dt) => Some(dt.timestamp_millis()),
        None => None,
    }
}

/// Relies on chrono's `Utc::now` and `DateTime::timestamp_millis`: the result
/// is the clock's current reading, so nothing is promised of it.
#[verifier::external_body]
pub(crate) fn now_utc_ms() -> i64 {
    chrono::Utc::now().timestamp_millis()
}

} // verus!
