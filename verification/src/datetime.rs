//! The committed point-in-time value and the fixed text patterns of its two
//! draft buffers.
//!
//! A [`DateTime`] holds a calendar date and a time of day as plain integers.
//! The date draft is committed against the fixed `DD.MM.YYYY` pattern and
//! the time draft against the fixed `HH:MM` pattern; a commit replaces only
//! the half of the point-in-time value that the draft describes.

use vstd::prelude::*;
use vstd::string::*;

verus! {

/// A calendar date with a time of day, minute precision.
#[derive(Clone, Copy, Debug, PartialEq, Eq, Structural)]
pub struct DateTime {
    pub year: u16,
    pub month: u8,
    pub day: u8,
    pub hour: u8,
    pub minute: u8,
}

/// Gregorian leap-year rule.
pub open spec fn leap_year(y: int) -> bool {
    y % 4 == 0 && (y % 100 != 0 || y % 400 == 0)
}

/// Number of days of a month in the Gregorian calendar.
pub open spec fn spec_days_in_month(y: int, m: int) -> int {
    if m == 2 {
        if leap_year(y) {
            29
        } else {
            28
        }
    } else if m == 4 || m == 6 || m == 9 || m == 11 {
        30
    } else {
        31
    }
}

/// A valid calendar date within the four-digit-year range.
pub open spec fn valid_ymd(y: int, m: int, d: int) -> bool {
    &&& 1 <= y <= 9999
    &&& 1 <= m <= 12
    &&& 1 <= d <= spec_days_in_month(y, m)
}

/// A valid time of day.
pub open spec fn valid_hm(h: int, mi: int) -> bool {
    0 <= h < 24 && 0 <= mi < 60
}

impl DateTime {
    /// The value describes a real calendar date and time of day.
    pub open spec fn wf(self) -> bool {
        valid_ymd(self.year as int, self.month as int, self.day as int) && valid_hm(
            self.hour as int,
            self.minute as int,
        )
    }

    /// Runtime check of [`DateTime::wf`].
    pub fn is_valid(&self) -> (r: bool)
        ensures
            r == self.wf(),
    {
        1 <= self.year && self.year <= 9999 && 1 <= self.month && self.month <= 12 && 1 <= self.day
            && self.day <= days_in_month(self.year, self.month) && self.hour < 24 && self.minute
            < 60
    }

    /// The same point in time with the calendar date replaced.
    pub open spec fn spec_with_date(self, y: u16, m: u8, d: u8) -> DateTime {
        DateTime { year: y, month: m, day: d, hour: self.hour, minute: self.minute }
    }

    /// The same point in time with the time of day replaced.
    pub open spec fn spec_with_time(self, h: u8, mi: u8) -> DateTime {
        DateTime { year: self.year, month: self.month, day: self.day, hour: h, minute: mi }
    }
}

/// Number of days of a month in the Gregorian calendar.
pub fn days_in_month(y: u16, m: u8) -> (r: u8)
    ensures
        r as int == spec_days_in_month(y as int, m as int),
{
    if m == 2 {
        if y % 4 == 0 && (y % 100 != 0 || y % 400 == 0) {
            29
        } else {
            28
        }
    } else if m == 4 || m == 6 || m == 9 || m == 11 {
        30
    } else {
        31
    }
}

/// Whether a character is a decimal digit.
pub open spec fn is_digit(c: char) -> bool {
    c == '0' || c == '1' || c == '2' || c == '3' || c == '4' || c == '5' || c == '6' || c == '7'
        || c == '8' || c == '9'
}

/// Numeric value of a decimal digit character; unspecified elsewhere.
pub open spec fn digit_val(c: char) -> int {
    if c == '0' {
        0
    } else if c == '1' {
        1
    } else if c == '2' {
        2
    } else if c == '3' {
        3
    } else if c == '4' {
        4
    } else if c == '5' {
        5
    } else if c == '6' {
        6
    } else if c == '7' {
        7
    } else if c == '8' {
        8
    } else {
        9
    }
}

/// The decimal digit character of a value below ten.
pub open spec fn digit_char(v: int) -> char {
    if v == 0 {
        '0'
    } else if v == 1 {
        '1'
    } else if v == 2 {
        '2'
    } else if v == 3 {
        '3'
    } else if v == 4 {
        '4'
    } else if v == 5 {
        '5'
    } else if v == 6 {
        '6'
    } else if v == 7 {
        '7'
    } else if v == 8 {
        '8'
    } else {
        '9'
    }
}

/// Reads one character as a decimal digit.
fn read_digit(c: char) -> (r: Option<u8>)
    ensures
        r is Some <==> is_digit(c),
        r is Some ==> r->0 as int == digit_val(c) && r->0 < 10,
{
    if c == '0' {
        Some(0)
    } else if c == '1' {
        Some(1)
    } else if c == '2' {
        Some(2)
    } else if c == '3' {
        Some(3)
    } else if c == '4' {
        Some(4)
    } else if c == '5' {
        Some(5)
    } else if c == '6' {
        Some(6)
    } else if c == '7' {
        Some(7)
    } else if c == '8' {
        Some(8)
    } else if c == '9' {
        Some(9)
    } else {
        None
    }
}

/// The draft text matches the fixed `DD.MM.YYYY` date pattern: exactly ten
/// characters, dots after the day and the month, digits everywhere else.
pub open spec fn date_pattern(s: Seq<char>) -> bool {
    &&& s.len() == 10
    &&& is_digit(s[0]) && is_digit(s[1])
    &&& s[2] == '.'
    &&& is_digit(s[3]) && is_digit(s[4])
    &&& s[5] == '.'
    &&& is_digit(s[6]) && is_digit(s[7]) && is_digit(s[8]) && is_digit(s[9])
}

/// The day the date pattern spells out.
pub open spec fn date_pattern_day(s: Seq<char>) -> int {
    digit_val(s[0]) * 10 + digit_val(s[1])
}

/// The month the date pattern spells out.
pub open spec fn date_pattern_month(s: Seq<char>) -> int {
    digit_val(s[3]) * 10 + digit_val(s[4])
}

/// The year the date pattern spells out.
pub open spec fn date_pattern_year(s: Seq<char>) -> int {
    digit_val(s[6]) * 1000 + digit_val(s[7]) * 100 + digit_val(s[8]) * 10 + digit_val(s[9])
}

/// Result of committing a date draft: the year, month and day it spells
/// out, if the draft matches the pattern and names a real calendar date.
pub open spec fn spec_parse_date(s: Seq<char>) -> Option<(u16, u8, u8)> {
    if date_pattern(s) && valid_ymd(date_pattern_year(s), date_pattern_month(s), date_pattern_day(s)) {
        Some(
            (
                date_pattern_year(s) as u16,
                date_pattern_month(s) as u8,
                date_pattern_day(s) as u8,
            ),
        )
    } else {
        None
    }
}

/// The draft text matches the fixed `HH:MM` time pattern.
pub open spec fn time_pattern(s: Seq<char>) -> bool {
    &&& s.len() == 5
    &&& is_digit(s[0]) && is_digit(s[1])
    &&& s[2] == ':'
    &&& is_digit(s[3]) && is_digit(s[4])
}

/// The hour the time pattern spells out.
pub open spec fn time_pattern_hour(s: Seq<char>) -> int {
    digit_val(s[0]) * 10 + digit_val(s[1])
}

/// The minute the time pattern spells out.
pub open spec fn time_pattern_minute(s: Seq<char>) -> int {
    digit_val(s[3]) * 10 + digit_val(s[4])
}

/// Result of committing a time draft: the hour and minute it spells out,
/// if the draft matches the pattern and names a real time of day.
pub open spec fn spec_parse_time(s: Seq<char>) -> Option<(u8, u8)> {
    if time_pattern(s) && valid_hm(time_pattern_hour(s), time_pattern_minute(s)) {
        Some((time_pattern_hour(s) as u8, time_pattern_minute(s) as u8))
    } else {
        None
    }
}

/// Parses a date draft against the fixed `DD.MM.YYYY` pattern, rejecting
/// drafts that do not name a real calendar date.
pub fn parse_date(s: &str) -> (r: Option<(u16, u8, u8)>)
    ensures
        r == spec_parse_date(s@),
{
    if s.unicode_len() != 10 {
        return None;
    }
    if s.get_char(2) != '.' || s.get_char(5) != '.' {
        return None;
    }
    let d0 = read_digit(s.get_char(0));
    let d1 = read_digit(s.get_char(1));
    let m0 = read_digit(s.get_char(3));
    let m1 = read_digit(s.get_char(4));
    let y0 = read_digit(s.get_char(6));
    let y1 = read_digit(s.get_char(7));
    let y2 = read_digit(s.get_char(8));
    let y3 = read_digit(s.get_char(9));
    match (d0, d1, m0, m1, y0, y1, y2, y3) {
        (
            Some(d0),
            Some(d1),
            Some(m0),
            Some(m1),
            Some(y0),
            Some(y1),
            Some(y2),
            Some(y3),
        ) => {
            let day: u8 = d0 * 10 + d1;
            let month: u8 = m0 * 10 + m1;
            let year: u16 = (y0 as u16) * 1000 + (y1 as u16) * 100 + (y2 as u16) * 10 + (
            y3 as u16);
            if 1 <= year && 1 <= month && month <= 12 && 1 <= day && day <= days_in_month(
                year,
                month,
            ) {
                Some((year, month, day))
            } else {
                None
            }
        },
        _ => None,
    }
}

/// Parses a time draft against the fixed `HH:MM` pattern, rejecting drafts
/// that do not name a real time of day.
pub fn parse_time(s: &str) -> (r: Option<(u8, u8)>)
    ensures
        r == spec_parse_time(s@),
{
    if s.unicode_len() != 5 {
        return None;
    }
    if s.get_char(2) != ':' {
        return None;
    }
    let h0 = read_digit(s.get_char(0));
    let h1 = read_digit(s.get_char(1));
    let m0 = read_digit(s.get_char(3));
    let m1 = read_digit(s.get_char(4));
    match (h0, h1, m0, m1) {
        (Some(h0), Some(h1), Some(m0), Some(m1)) => {
            let hour: u8 = h0 * 10 + h1;
            let minute: u8 = m0 * 10 + m1;
            if hour < 24 && minute < 60 {
                Some((hour, minute))
            } else {
                None
            }
        },
        _ => None,
    }
}

/// Relies on `chrono::Local::now` and chrono's `Datelike` and `Timelike`
/// accessors, which document the month as 1 to 12, the day of month as 1
/// to 31, the hour as 0 to 23 and the minute as 0 to 59: reads the clock
/// as year, month, day, hour and minute of local time.
#[verifier::external_body]
fn local_now_parts() -> (r: (i32, u8, u8, u8, u8))
    ensures
        1 <= r.1 <= 12,
        1 <= r.2 <= 31,
        r.3 < 24,
        r.4 < 60,
{
    let now = chrono::Local::now();
    (
        chrono::Datelike::year(&now),
        chrono::Datelike::month(&now) as u8,
        chrono::Datelike::day(&now) as u8,
        chrono::Timelike::hour(&now) as u8,
        chrono::Timelike::minute(&now) as u8,
    )
}

/// The current local time as a well-formed point in time.
///
/// A clock reading outside the model's range — a year without four digits,
/// or a day past the end of its month — is drawn back to the nearest value
/// the model holds.
pub fn current_datetime() -> (d: DateTime)
    ensures
        d.wf(),
{
    let (y, mo, dy, h, mi) = local_now_parts();
    let year: u16 = if y < 1 {
        1
    } else if y > 9999 {
        9999
    } else {
        y as u16
    };
    let dim = days_in_month(year, mo);
    let day: u8 = if dy > dim {
        dim
    } else {
        dy
    };
    DateTime { year: year, month: mo, day: day, hour: h, minute: mi }
}

/// Relies on `String::push`: appends the given character to the string.
#[verifier::external_body]
pub(crate) fn push_char(s: &mut String, c: char)
    ensures
        final(s)@ == old(s)@.push(c),
{
    s.push(c);
}

/// Appends the decimal digit character of a value below ten.
fn push_digit(s: &mut String, v: u8)
    requires
        v < 10,
    ensures
        final(s)@ == old(s)@.push(digit_char(v as int)),
{
    if v == 0 {
        push_char(s, '0');
    } else if v == 1 {
        push_char(s, '1');
    } else if v == 2 {
        push_char(s, '2');
    } else if v == 3 {
        push_char(s, '3');
    } else if v == 4 {
        push_char(s, '4');
    } else if v == 5 {
        push_char(s, '5');
    } else if v == 6 {
        push_char(s, '6');
    } else if v == 7 {
        push_char(s, '7');
    } else if v == 8 {
        push_char(s, '8');
    } else {
        push_char(s, '9');
    }
}

/// The `DD.MM.YYYY` text of a date, two-digit day and month, four-digit
/// year.
pub open spec fn spec_format_date(d: DateTime) -> Seq<char> {
    seq![
        digit_char(d.day as int / 10),
        digit_char(d.day as int % 10),
        '.',
        digit_char(d.month as int / 10),
        digit_char(d.month as int % 10),
        '.',
        digit_char(d.year as int / 1000),
        digit_char(d.year as int / 100 % 10),
        digit_char(d.year as int / 10 % 10),
        digit_char(d.year as int % 10),
    ]
}

/// The `HH:MM` text of a time of day.
pub open spec fn spec_format_time(d: DateTime) -> Seq<char> {
    seq![
        digit_char(d.hour as int / 10),
        digit_char(d.hour as int % 10),
        ':',
        digit_char(d.minute as int / 10),
        digit_char(d.minute as int % 10),
    ]
}

/// Writes the date of a point in time in the `DD.MM.YYYY` draft pattern.
pub fn format_date(d: &DateTime) -> (r: String)
    requires
        d.wf(),
    ensures
        r@ == spec_format_date(*d),
{
    let mut s = String::new();
    push_digit(&mut s, d.day / 10);
    push_digit(&mut s, d.day % 10);
    push_char(&mut s, '.');
    push_digit(&mut s, d.month / 10);
    push_digit(&mut s, d.month % 10);
    push_char(&mut s, '.');
    push_digit(&mut s, (d.year / 1000) as u8);
    push_digit(&mut s, (d.year / 100 % 10) as u8);
    push_digit(&mut s, (d.year / 10 % 10) as u8);
    push_digit(&mut s, (d.year % 10) as u8);
    proof {
        assert(s@ =~= spec_format_date(*d));
    }
    s
}

/// Writes the time of day of a point in time in the `HH:MM` draft pattern.
pub fn format_time(d: &DateTime) -> (r: String)
    requires
        d.wf(),
    ensures
        r@ == spec_format_time(*d),
{
    let mut s = String::new();
    push_digit(&mut s, d.hour / 10);
    push_digit(&mut s, d.hour % 10);
    push_char(&mut s, ':');
    push_digit(&mut s, d.minute / 10);
    push_digit(&mut s, d.minute % 10);
    proof {
        assert(s@ =~= spec_format_time(*d));
    }
    s
}

} // verus!
