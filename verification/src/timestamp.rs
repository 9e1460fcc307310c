//! Timestamps as the store delivers them: strings in the fixed pattern
//! `DD/MM/YYYY HH:MM:SS±HH:MM`, parsed into a plain calendar value. The
//! grammar is specified character by character and the parser is proved to
//! decide it exactly; a string of any other shape is rejected.

use vstd::prelude::*;
use vstd::string::StrSliceExecFns;

verus! {

/// A parsed point in time: a Gregorian calendar date, a time of day and the
/// UTC offset the store recorded with it.
#[derive(Clone, Copy, Debug, PartialEq, Eq, Structural)]
pub struct Timestamp {
    pub year: u16,
    pub month: u8,
    pub day: u8,
    pub hour: u8,
    pub minute: u8,
    pub second: u8,
    /// Offset from UTC in minutes; negative when the offset sign is `-`.
    pub offset_minutes: i16,
}

/// Whether `c` is a decimal digit.
pub open spec fn is_digit(c: char) -> bool {
    '0' as u32 <= c as u32 && c as u32 <= '9' as u32
}

/// The value of a decimal digit character.
pub open spec fn digit_val(c: char) -> int {
    c as u32 - '0' as u32
}

/// The value of the two-digit group starting at position `i`.
pub open spec fn two_digits(s: Seq<char>, i: int) -> int {
    10 * digit_val(s[i]) + digit_val(s[i + 1])
}

/// The value of the four-digit group starting at position `i`.
pub open spec fn four_digits(s: Seq<char>, i: int) -> int {
    1000 * digit_val(s[i]) + 100 * digit_val(s[i + 1]) + 10 * digit_val(s[i + 2]) + digit_val(
        s[i + 3],
    )
}

/// Whether `y` is a leap year of the Gregorian calendar.
pub open spec fn spec_is_leap_year(y: int) -> bool {
    (y % 4 == 0 && y % 100 != 0) || y % 400 == 0
}

/// How many days the month `m` of year `y` has.
pub open spec fn spec_days_in_month(y: int, m: int) -> int
    recommends
        1 <= m <= 12,
{
    if m == 2 {
        if spec_is_leap_year(y) {
            29
        } else {
            28
        }
    } else if m == 4 || m == 6 || m == 9 || m == 11 {
        30
    } else {
        31
    }
}

/// The separators of the pattern stand at their fixed positions and the
/// offset carries an explicit sign.
pub open spec fn timestamp_separators_ok(s: Seq<char>) -> bool {
    &&& s[2] == '/'
    &&& s[5] == '/'
    &&& s[10] == ' '
    &&& s[13] == ':'
    &&& s[16] == ':'
    &&& (s[19] == '+' || s[19] == '-')
    &&& s[22] == ':'
}

/// Every position of the pattern that must hold a digit does.
pub open spec fn timestamp_digits_ok(s: Seq<char>) -> bool {
    &&& is_digit(s[0]) && is_digit(s[1])
    &&& is_digit(s[3]) && is_digit(s[4])
    &&& is_digit(s[6]) && is_digit(s[7]) && is_digit(s[8]) && is_digit(s[9])
    &&& is_digit(s[11]) && is_digit(s[12])
    &&& is_digit(s[14]) && is_digit(s[15])
    &&& is_digit(s[17]) && is_digit(s[18])
    &&& is_digit(s[20]) && is_digit(s[21])
    &&& is_digit(s[23]) && is_digit(s[24])
}

/// The text has the exact shape `DD/MM/YYYY HH:MM:SS±HH:MM`.
pub open spec fn timestamp_shape_ok(s: Seq<char>) -> bool {
    s.len() == 25 && timestamp_separators_ok(s) && timestamp_digits_ok(s)
}

/// The field values a well-shaped text must carry: a real calendar date and
/// a time of day within range.
pub open spec fn timestamp_fields_ok(s: Seq<char>) -> bool
    recommends
        timestamp_shape_ok(s),
{
    &&& 1 <= two_digits(s, 3) <= 12
    &&& 1 <= two_digits(s, 0) <= spec_days_in_month(four_digits(s, 6), two_digits(s, 3))
    &&& two_digits(s, 11) <= 23
    &&& two_digits(s, 14) <= 59
    &&& two_digits(s, 17) <= 59
    &&& two_digits(s, 20) <= 23
    &&& two_digits(s, 23) <= 59
}

/// The exact parse relation of the timestamp pattern: `Some` with the carried
/// fields when the text is well shaped and in range, `None` otherwise.
pub open spec fn spec_parse_timestamp(s: Seq<char>) -> Option<Timestamp> {
    if timestamp_shape_ok(s) && timestamp_fields_ok(s) {
        Some(
            Timestamp {
                year: four_digits(s, 6) as u16,
                month: two_digits(s, 3) as u8,
                day: two_digits(s, 0) as u8,
                hour: two_digits(s, 11) as u8,
                minute: two_digits(s, 14) as u8,
                second: two_digits(s, 17) as u8,
                offset_minutes: if s[19] == '-' {
                    (-(two_digits(s, 20) * 60 + two_digits(s, 23))) as i16
                } else {
                    (two_digits(s, 20) * 60 + two_digits(s, 23)) as i16
                },
            },
        )
    } else {
        None
    }
}

/// Reads the digit at position `i`, or reports that none stands there.
fn read_digit(s: &str, i: usize) -> (r: Option<u32>)
    requires
        i < s@.len(),
    ensures
        match r {
            Some(v) => is_digit(s@[i as int]) && v == digit_val(s@[i as int]),
            None => !is_digit(s@[i as int]),
        },
{
    let c = s.get_char(i);
    let u = c as u32;
    if '0' as u32 <= u && u <= '9' as u32 {
        Some(u - '0' as u32)
    } else {
        None
    }
}

/// Reads the two-digit group starting at position `i`.
fn read_two_digits(s: &str, i: usize) -> (r: Option<u32>)
    requires
        i + 1 < s@.len(),
        i + 1 <= usize::MAX,
    ensures
        match r {
            Some(v) => is_digit(s@[i as int]) && is_digit(s@[i + 1]) && v == two_digits(
                s@,
                i as int,
            ),
            None => !(is_digit(s@[i as int]) && is_digit(s@[i + 1])),
        },
{
    match (read_digit(s, i), read_digit(s, i + 1)) {
        (Some(hi), Some(lo)) => Some(10 * hi + lo),
        _ => None,
    }
}

/// Whether `year` is a leap year.
pub fn is_leap_year(year: u32) -> (r: bool)
    ensures
        r == spec_is_leap_year(year as int),
{
    (year % 4 == 0 && year % 100 != 0) || year % 400 == 0
}

/// How many days the month has.
pub fn days_in_month(year: u32, month: u32) -> (d: u32)
    requires
        1 <= month <= 12,
    ensures
        d == spec_days_in_month(year as int, month as int),
{
    if month == 2 {
        if is_leap_year(year) {
            29
        } else {
            28
        }
    } else if month == 4 || month == 6 || month == 9 || month == 11 {
        30
    } else {
        31
    }
}

/// Parses a timestamp string of the fixed pattern, deciding the grammar
/// exactly: the result is `Some` precisely on the strings the pattern admits.
pub fn convert_date(value: String) -> (r: Option<Timestamp>)
    ensures
        r == spec_parse_timestamp(value@),
{
    let s = value.as_str();
    if s.unicode_len() != 25 {
        return None;
    }
    if !(s.get_char(2) == '/' && s.get_char(5) == '/' && s.get_char(10) == ' ' && s.get_char(13)
        == ':' && s.get_char(16) == ':' && s.get_char(22) == ':') {
        return None;
    }
    let sign = s.get_char(19);
    if !(sign == '+' || sign == '-') {
        return None;
    }
    let day = match read_two_digits(s, 0) {
        Some(v) => v,
        None => {
            return None;
        },
    };
    let month = match read_two_digits(s, 3) {
        Some(v) => v,
        None => {
            return None;
        },
    };
    let year_hi = match read_two_digits(s, 6) {
        Some(v) => v,
        None => {
            return None;
        },
    };
    let year_lo = match read_two_digits(s, 8) {
        Some(v) => v,
        None => {
            return None;
        },
    };
    let year = 100 * year_hi + year_lo;
    let hour = match read_two_digits(s, 11) {
        Some(v) => v,
        None => {
            return None;
        },
    };
    let minute = match read_two_digits(s, 14) {
        Some(v) => v,
        None => {
            return None;
        },
    };
    let second = match read_two_digits(s, 17) {
        Some(v) => v,
        None => {
            return None;
        },
    };
    let off_hour = match read_two_digits(s, 20) {
        Some(v) => v,
        None => {
            return None;
        },
    };
    let off_minute = match read_two_digits(s, 23) {
        Some(v) => v,
        None => {
            return None;
        },
    };
    if !(1 <= month && month <= 12) {
        return None;
    }
    if !(1 <= day && day <= days_in_month(year, month)) {
        return None;
    }
    if !(hour <= 23 && minute <= 59 && second <= 59 && off_hour <= 23 && off_minute <= 59) {
        return None;
    }
    proof {
        assert(year == four_digits(s@, 6));
    }
    let magnitude = (off_hour * 60 + off_minute) as i16;
    let offset_minutes: i16 = if sign == '-' {
        -magnitude
    } else {
        magnitude
    };
    Some(
        Timestamp {
            year: year as u16,
            month: month as u8,
            day: day as u8,
            hour: hour as u8,
            minute: minute as u8,
            second: second as u8,
            offset_minutes,
        },
    )
}

} // verus!
