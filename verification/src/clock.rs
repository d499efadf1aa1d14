//! The time of day as the bar shows it.
use chrono::{Datelike, Timelike};
use vstd::prelude::*;

use crate::text::{all_digits, decimal, digit_char, law_decimal_spells_the_number, number};

verus! {

/// The pattern of a time that shows seconds.
pub const PATTERN_SECONDS: &'static str = "%Y-%m-%d %H:%M:%S";

/// The pattern of a time that stops at the minute.
pub const PATTERN_MINUTES: &'static str = "%Y-%m-%d %H:%M";

/// A date and a time of day on the wall clock.
#[derive(Copy, Clone, PartialEq, Eq, Structural, Debug)]
pub struct LocalTime {
    pub year: i32,
    pub month: u32,
    pub day: u32,
    pub hour: u32,
    pub minute: u32,
    pub second: u32,
}

/// Whether a year of the Gregorian calendar has 366 days.
pub open spec fn is_leap_year(year: int) -> bool {
    year % 4 == 0 && (year % 100 != 0 || year % 400 == 0)
}

/// The number of days in a month of the Gregorian calendar.
pub open spec fn days_in_month(year: int, month: int) -> int {
    if month == 2 {
        if is_leap_year(year) {
            29
        } else {
            28
        }
    } else if month == 4 || month == 6 || month == 9 || month == 11 {
        30
    } else {
        31
    }
}

impl LocalTime {
    /// Whether the date is one of the calendar, in a year that can be shown, and the time one of
    /// the day.
    pub open spec fn valid(self) -> bool {
        &&& -262143 <= self.year <= 262142
        &&& 1 <= self.month <= 12
        &&& 1 <= self.day <= days_in_month(self.year as int, self.month as int)
        &&& self.hour < 24
        &&& self.minute < 60
        &&& self.second < 60
    }
}

/// A number below 100 in two digits.
pub open spec fn two_digits(n: int) -> Seq<char> {
    seq![digit_char(n / 10), digit_char(n % 10)]
}

/// A number below 10000 in four digits, any greater one in as many as it takes.
pub open spec fn four_digits(n: int) -> Seq<char> {
    if n < 10_000 {
        two_digits(n / 100) + two_digits(n % 100)
    } else {
        decimal(n as nat)
    }
}

/// A year in at least four digits. One that is negative or takes more has a sign.
pub open spec fn year_text(year: int) -> Seq<char> {
    if year < 0 {
        seq!['-'] + four_digits(-year)
    } else if year < 10_000 {
        four_digits(year)
    } else {
        seq!['+'] + four_digits(year)
    }
}

/// A time up to the minute, as year, month, day, hour and minute.
pub open spec fn minutes_text(time: LocalTime) -> Seq<char> {
    year_text(time.year as int) + seq!['-'] + two_digits(time.month as int) + seq!['-']
        + two_digits(time.day as int) + seq![' '] + two_digits(time.hour as int) + seq![':']
        + two_digits(time.minute as int)
}

/// A time as the bar shows it.
pub open spec fn time_text(time: LocalTime, show_seconds: bool) -> Seq<char> {
    if show_seconds {
        minutes_text(time) + seq![':'] + two_digits(time.second as int)
    } else {
        minutes_text(time)
    }
}

/// Reads the wall clock with `chrono::Local::now`, in the time zone of the machine, and takes the
/// parts of the date and of the time of day from it. Whatever the clock says, these are a date of
/// the Gregorian calendar in the range of years that `chrono` has, and a time of day. Which ones,
/// the machine decides. `chrono` panics where the clock stands before 1970 or beyond that range, and
/// where the time zone is a day or more away from UTC, as the variable `TZ` can have it.
#[verifier::external_body]
pub(crate) fn local_now() -> (time: LocalTime)
    ensures
        time.valid(),
{
    let now = chrono::Local::now().naive_local();
    LocalTime {
        year: now.year(),
        month: now.month(),
        day: now.day(),
        hour: now.hour(),
        minute: now.minute(),
        second: now.second(),
    }
}

/// Whether a time is one that the wall clock gave: a result of a call of `local_now`.
pub closed spec fn is_reading(time: LocalTime) -> bool {
    call_ensures(local_now, (), time)
}

/// Only the wall clock makes a time a reading, and every reading is a date of the calendar and a
/// time of day.
pub(crate) proof fn law_readings_come_from_the_wall_clock(time: LocalTime)
    requires
        is_reading(time),
    ensures
        call_ensures(local_now, (), time),
        time.valid(),
{
}

/// Reads the wall clock.
pub(crate) fn read_clock() -> (time: LocalTime)
    ensures
        is_reading(time),
        time.valid(),
{
    local_now()
}

/// Formats a date and time with `chrono::NaiveDateTime::format`. In a pattern, `%Y` stands for the
/// year, zero-padded to four digits and with a sign where it is negative or takes more; `%m`,
/// `%d`, `%H`, `%M` and `%S` stand for month, day, hour, minute and second, each zero-padded to
/// two digits; other characters stand for themselves.
#[verifier::external_body]
fn format_time(time: &LocalTime, pattern: &str) -> (text: String)
    requires
        time.valid(),
        pattern@ == PATTERN_SECONDS@ || pattern@ == PATTERN_MINUTES@,
    ensures
        pattern@ == PATTERN_SECONDS@ ==> text@ == minutes_text(*time) + seq![':'] + two_digits(
            time.second as int,
        ),
        pattern@ == PATTERN_MINUTES@ ==> text@ == minutes_text(*time),
{
    chrono::NaiveDate::from_ymd_opt(time.year, time.month, time.day)
        .unwrap()
        .and_hms_opt(time.hour, time.minute, time.second)
        .unwrap()
        .format(pattern)
        .to_string()
}

/// A time as the bar shows it.
pub fn clock_text(time: &LocalTime, show_seconds: bool) -> (text: String)
    requires
        time.valid(),
    ensures
        text@ == time_text(*time, show_seconds),
{
    let pattern = if show_seconds {
        PATTERN_SECONDS
    } else {
        PATTERN_MINUTES
    };
    format_time(time, pattern)
}

/// Showing the seconds only adds to the text: it is the text without them, a colon and two digits.
pub proof fn law_seconds_extend_the_text(time: LocalTime)
    ensures
        time_text(time, false).is_prefix_of(time_text(time, true)),
        time_text(time, true).len() == time_text(time, false).len() + 3,
{
    assert(time_text(time, true).subrange(0, time_text(time, false).len() as int) =~= time_text(
        time,
        false,
    ));
}

/// In the years from 0 to 9999 every time takes the same room.
pub proof fn law_text_has_a_fixed_width(time: LocalTime, show_seconds: bool)
    requires
        0 <= time.year <= 9999,
    ensures
        time_text(time, show_seconds).len() == if show_seconds {
            19int
        } else {
            16
        },
{
}

/// Whether two digits at a place in a text stand for a number.
pub open spec fn reads_at(text: Seq<char>, at: int, n: int) -> bool {
    &&& 0 <= at <= text.len() - 2
    &&& '0' <= text[at] <= '9'
    &&& '0' <= text[at + 1] <= '9'
    &&& 10 * (text[at] as int - '0' as int) + (text[at + 1] as int - '0' as int) == n
}

proof fn lemma_four_digits(n: int)
    requires
        0 <= n < 10_000,
    ensures
        four_digits(n).len() == 4,
        all_digits(four_digits(n)),
        number(four_digits(n)) == n,
{
    let text = four_digits(n);
    let three = text.drop_last();
    let two = three.drop_last();
    let one = two.drop_last();
    assert(one.drop_last().len() == 0);
    assert(number(one.drop_last()) == 0);
    assert(number(one) == n / 1000);
    assert(number(two) == n / 100);
    assert(number(three) == n / 10);
}

/// The text of a time tells the time: after the year stand the month, the day, the hour and the
/// minute, and the second where seconds are shown, each in two digits and with its sign before it.
pub proof fn law_text_tells_the_time(time: LocalTime, show_seconds: bool)
    requires
        time.valid(),
    ensures
        ({
            let text = time_text(time, show_seconds);
            let end = text.len() - if show_seconds {
                15int
            } else {
                12
            };
            &&& end >= 4
            &&& text[end] == '-' && reads_at(text, end + 1, time.month as int)
            &&& text[end + 3] == '-' && reads_at(text, end + 4, time.day as int)
            &&& text[end + 6] == ' ' && reads_at(text, end + 7, time.hour as int)
            &&& text[end + 9] == ':' && reads_at(text, end + 10, time.minute as int)
            &&& show_seconds ==> text[end + 12] == ':' && reads_at(text, end + 13, time.second as int)
        }),
{
    law_text_tells_the_year(time, show_seconds);
    let text = time_text(time, show_seconds);
    let end = year_text(time.year as int).len() as int;
    assert(text[end + 1] == digit_char(time.month as int / 10));
    assert(text[end + 2] == digit_char(time.month as int % 10));
    assert(text[end + 4] == digit_char(time.day as int / 10));
    assert(text[end + 5] == digit_char(time.day as int % 10));
    assert(text[end + 7] == digit_char(time.hour as int / 10));
    assert(text[end + 8] == digit_char(time.hour as int % 10));
    assert(text[end + 10] == digit_char(time.minute as int / 10));
    assert(text[end + 11] == digit_char(time.minute as int % 10));
}

/// The text of a time starts with the year: in four digits in the years from 0 to 9999, with a plus
/// sign and as many digits as it takes after them, and with a minus sign and at least four digits
/// before them.
pub proof fn law_text_tells_the_year(time: LocalTime, show_seconds: bool)
    requires
        time.valid(),
    ensures
        ({
            let text = time_text(time, show_seconds);
            let end = text.len() - if show_seconds {
                15int
            } else {
                12
            };
            let year = time.year as int;
            let digits = if 0 <= year <= 9999 {
                text.subrange(0, end)
            } else {
                text.subrange(1, end)
            };
            &&& year < 0 ==> text[0] == '-'
            &&& year > 9999 ==> text[0] == '+'
            &&& all_digits(digits)
            &&& number(digits) == if year < 0 {
                -year
            } else {
                year
            }
            &&& -9999 <= year <= 9999 ==> digits.len() == 4
            &&& !(-9999 <= year <= 9999) ==> digits.len() >= 5 && digits[0] != '0'
        }),
{
    let text = time_text(time, show_seconds);
    let year = time.year as int;
    let size = if year < 0 {
        -year
    } else {
        year
    };
    let written = year_text(year);
    let end = written.len() as int;
    if size < 10_000 {
        lemma_four_digits(size);
    } else {
        law_decimal_spells_the_number(size as nat, decimal(size as nat));
        lemma_five_digits(size as nat);
    }
    assert(text.subrange(0, end) =~= written);
    assert(text.subrange(1, end) =~= written.subrange(1, end));
    if 0 <= year <= 9999 {
        assert(text.subrange(0, end) =~= four_digits(size));
    } else {
        assert(text.subrange(1, end) =~= four_digits(size));
    }
}

proof fn lemma_five_digits(n: nat)
    requires
        n >= 10_000,
    ensures
        decimal(n).len() >= 5,
{
    reveal_with_fuel(decimal, 5);
}

/// The months of the calendar: February has 29 days in every fourth year, but for those of a century
/// that 400 does not divide, and else 28; of the other months four have 30 days, and the rest 31.
pub proof fn law_calendar_is_gregorian(year: int, month: int)
    requires
        1 <= month <= 12,
    ensures
        year % 4 != 0 ==> days_in_month(year, 2) == 28,
        year % 4 == 0 && year % 100 != 0 ==> days_in_month(year, 2) == 29,
        year % 100 == 0 && year % 400 != 0 ==> days_in_month(year, 2) == 28,
        year % 400 == 0 ==> days_in_month(year, 2) == 29,
        month == 1 || month == 3 || month == 5 || month == 7 || month == 8 || month == 10 || month
            == 12 ==> days_in_month(year, month) == 31,
        month == 4 || month == 6 || month == 9 || month == 11 ==> days_in_month(year, month) == 30,
{
}

/// Every date of the calendar in the years that can be shown, with every time of day to the second,
/// is a valid time, and nothing else is.
pub proof fn law_valid_times(time: LocalTime)
    ensures
        time.valid() <==> {
            &&& -262_144 < time.year < 262_143
            &&& 0 < time.month < 13
            &&& 0 < time.day < 1 + days_in_month(time.year as int, time.month as int)
            &&& time.hour <= 23
            &&& time.minute <= 59
            &&& time.second <= 59
        },
{
}

/// The patterns of the two forms of the time, and what they have in common.
pub proof fn law_patterns()
    ensures
        PATTERN_MINUTES@ == "%Y-%m-%d %H:%M"@,
        PATTERN_SECONDS@ == PATTERN_MINUTES@ + seq![':', '%', 'S'],
{
    reveal_strlit("%Y-%m-%d %H:%M");
    reveal_strlit("%Y-%m-%d %H:%M:%S");
    assert(PATTERN_SECONDS@ =~= PATTERN_MINUTES@ + seq![':', '%', 'S']);
}

} // verus!
