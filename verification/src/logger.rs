//! The lines of the log file.
use vstd::prelude::*;
use crate::text;

verus! {

pub const LEVEL_ERROR: &'static str = "ERROR";

pub const LEVEL_WARN: &'static str = "WARN";

pub const LEVEL_INFO: &'static str = "INFO";

pub const LEVEL_DEBUG: &'static str = "DEBUG";

// ---------------------------------------------------------------------------
// The calendar
// ---------------------------------------------------------------------------
/// Whether a year has a 29th of February.
pub open spec fn leap(year: int) -> bool {
    year % 4 == 0 && (year % 100 != 0 || year % 400 == 0)
}

/// How many days a month has.
pub open spec fn month_length(year: int, month: int) -> int {
    if month == 2 {
        if leap(year) {
            29
        } else {
            28
        }
    } else if month == 4 || month == 6 || month == 9 || month == 11 {
        30
    } else {
        31
    }
}

/// How many days lie between the 1st of March and the first day of a month, the last March before
/// it.
pub open spec fn since_march(month: int) -> int {
    if month == 3 {
        0
    } else if month == 4 {
        31
    } else if month == 5 {
        61
    } else if month == 6 {
        92
    } else if month == 7 {
        122
    } else if month == 8 {
        153
    } else if month == 9 {
        184
    } else if month == 10 {
        214
    } else if month == 11 {
        245
    } else if month == 12 {
        275
    } else if month == 1 {
        306
    } else {
        337
    }
}

/// How many days lie between the 1st of March of the year 0 and that of another year.
pub open spec fn march_of(year: int) -> int {
    365 * year + year / 4 - year / 100 + year / 400
}

/// How many days lie between the 1st of January 1970 and a date.
pub open spec fn day_number(year: int, month: int, day: int) -> int {
    let march_year = if month > 2 {
        year
    } else {
        year - 1
    };
    march_of(march_year) + since_march(month) + day - 1 - 719_468
}

/// A date and a time of the calendar.
pub open spec fn valid(when: (i64, u32, u32, u32, u32, u32)) -> bool {
    1 <= when.1 <= 12 && 1 <= when.2 <= month_length(when.0 as int, when.1 as int) && when.3 < 24
        && when.4 < 60 && when.5 < 60
}

/// How many seconds lie between the beginning of 1970 and a date with a time.
pub open spec fn second_number(when: (i64, u32, u32, u32, u32, u32)) -> int {
    86_400 * day_number(when.0 as int, when.1 as int, when.2 as int) + 3_600 * when.3 + 60 * when.4
        + when.5
}

/// The year, counted from March, and the day in it, of a day in a span of 400 years.
fn year_and_day(day_of_era: i64) -> (r: (i64, i64))
    requires
        0 <= day_of_era < 146_097,
    ensures
        0 <= r.0 < 400,
        0 <= r.1 <= 365,
        day_of_era == march_of(r.0 as int) + r.1,
        r.1 == 365 ==> leap(r.0 + 1),
{
    let century: i64 = if day_of_era >= 109_572 {
        3
    } else {
        day_of_era / 36_524
    };
    let in_century: i64 = day_of_era - 36_524 * century;
    let span: i64 = if in_century >= 35_064 {
        24
    } else {
        in_century / 1_461
    };
    let in_span: i64 = in_century - 1_461 * span;
    let last: i64 = if in_span >= 1_095 {
        3
    } else {
        in_span / 365
    };
    let day: i64 = in_span - 365 * last;
    let year: i64 = 100 * century + 4 * span + last;
    proof {
        assert(year / 4 == 25 * century + span);
        assert(year / 100 == century);
        assert(year / 400 == 0);
        if day == 365 {
            assert(last == 3);
            assert(in_span == 1_460);
            assert((year + 1) % 4 == 0);
            if span == 24 {
                assert(century == 3);
                assert(year == 399);
            } else {
                assert((year + 1) % 100 == 4 * span + 4);
            }
        }
    }
    (year, day)
}

/// The month and the day in it, of a day in a year counted from March.
fn month_and_day(day_of_year: i64) -> (r: (i64, i64))
    requires
        0 <= day_of_year <= 365,
    ensures
        1 <= r.0 <= 12,
        r.1 >= 1,
        day_of_year == since_march(r.0 as int) + r.1 - 1,
        r.0 == 2 ==> r.1 <= 29 && (r.1 == 29 ==> day_of_year == 365),
        r.0 != 2 ==> r.1 <= month_length(0, r.0 as int),
{
    let index: i64 = (5 * day_of_year + 2) / 153;
    let day: i64 = day_of_year - (153 * index + 2) / 5 + 1;
    let month: i64 = if index < 10 {
        index + 3
    } else {
        index - 9
    };
    (month, day)
}

/// The calendar repeats itself every 400 years.
pub proof fn the_calendar_repeats(year: int, era: int)
    ensures
        march_of(year + 400 * era) == march_of(year) + 146_097 * era,
        leap(year + 400 * era) == leap(year),
{
    assert((year + 400 * era) / 4 == year / 4 + 100 * era);
    assert((year + 400 * era) / 100 == year / 100 + 4 * era);
    assert((year + 400 * era) / 400 == year / 400 + era);
    assert((year + 400 * era) % 4 == year % 4);
    assert((year + 400 * era) % 100 == year % 100);
    assert((year + 400 * era) % 400 == year % 400);
}

/// The date of a day, counted from the 1st of March of the year 0.
fn date_of(shifted: i64) -> (r: (i64, u32, u32))
    requires
        -200_000_000_000_000 <= shifted <= 200_000_000_000_000,
    ensures
        1 <= r.1 <= 12,
        1 <= r.2 <= month_length(r.0 as int, r.1 as int),
        day_number(r.0 as int, r.1 as int, r.2 as int) == shifted - 719_468,
{
    let day_of_era: i64 = match shifted.checked_rem_euclid(146_097) {
        Some(day) => day,
        None => 0,
    };
    let era: i64 = (shifted - day_of_era) / 146_097;
    proof {
        assert(146_097 * era + day_of_era == shifted);
    }
    let (year_of_era, day_of_year) = year_and_day(day_of_era);
    let (month, day) = month_and_day(day_of_year);
    let march_year: i64 = year_of_era + 400 * era;
    let year: i64 = if month <= 2 {
        march_year + 1
    } else {
        march_year
    };
    proof {
        the_calendar_repeats(year_of_era as int, era as int);
        the_calendar_repeats(year_of_era + 1, era as int);
        assert(march_of(march_year as int) + day_of_year == shifted);
    }
    (year, month as u32, day as u32)
}

/// The date and the time of a number of seconds since the beginning of 1970.
pub fn civil_from_unix(seconds: i64) -> (r: (i64, u32, u32, u32, u32, u32))
    ensures
        valid(r),
        second_number(r) == seconds,
{
    let rest: i64 = match seconds.checked_rem_euclid(86_400) {
        Some(rest) => rest,
        None => 0,
    };
    let days: i64 = ((seconds as i128 - rest as i128) / 86_400) as i64;
    proof {
        assert(86_400 * days + rest == seconds);
    }
    let (year, month, day) = date_of(days + 719_468);
    let hour: i64 = rest / 3_600;
    let in_hour: i64 = rest % 3_600;
    (year, month, day, hour as u32, (in_hour / 60) as u32, (in_hour % 60) as u32)
}

/// How many days lie between the last 1st of March and a date.
pub open spec fn day_since_march(month: int, day: int) -> int {
    since_march(month) + day - 1
}

/// A year counted from March has 365 days, and 366 where the February at its end is long.
proof fn lemma_march_years(year: int)
    ensures
        march_of(year + 1) == march_of(year) + 365 + if leap(year + 1) {
            1int
        } else {
            0int
        },
{
    let next = year + 1;
    assert(next / 4 == year / 4 + if next % 4 == 0 {
        1int
    } else {
        0int
    });
    assert(next / 100 == year / 100 + if next % 100 == 0 {
        1int
    } else {
        0int
    });
    assert(next / 400 == year / 400 + if next % 400 == 0 {
        1int
    } else {
        0int
    });
    assert(next % 100 == 0 ==> next % 4 == 0);
    assert(next % 400 == 0 ==> next % 100 == 0);
}

/// Later years begin later.
proof fn lemma_march_grows(first: int, second: int)
    requires
        first <= second,
    ensures
        march_of(first) <= march_of(second),
    decreases second - first,
{
    if first < second {
        lemma_march_years(first);
        lemma_march_grows(first + 1, second);
    }
}

/// The year, counted from March, in which a date lies.
pub open spec fn march_year(year: int, month: int) -> int {
    if month > 2 {
        year
    } else {
        year - 1
    }
}

/// A date lies in its year.
proof fn lemma_in_year(year: int, month: int, day: int)
    requires
        1 <= month <= 12,
        1 <= day <= month_length(year, month),
    ensures
        0 <= day_since_march(month, day),
        march_of(march_year(year, month)) + day_since_march(month, day) < march_of(
            march_year(year, month) + 1,
        ),
{
    lemma_march_years(march_year(year, month));
}

/// Two dates on the same day are the same.
proof fn lemma_one_date(y1: int, m1: int, d1: int, y2: int, m2: int, d2: int)
    requires
        1 <= m1 <= 12,
        1 <= d1 <= month_length(y1, m1),
        1 <= m2 <= 12,
        1 <= d2 <= month_length(y2, m2),
        day_number(y1, m1, d1) == day_number(y2, m2, d2),
    ensures
        y1 == y2 && m1 == m2 && d1 == d2,
{
    let a = march_year(y1, m1);
    let b = march_year(y2, m2);
    lemma_in_year(y1, m1, d1);
    lemma_in_year(y2, m2, d2);
    if a < b {
        lemma_march_grows(a + 1, b);
    } else if b < a {
        lemma_march_grows(b + 1, a);
    }
    assert(a == b);
    assert(day_since_march(m1, d1) == day_since_march(m2, d2));
}

/// Every moment has one date and time: two that stand for the same moment are the same.
pub proof fn a_moment_has_one_date(
    first: (i64, u32, u32, u32, u32, u32),
    second: (i64, u32, u32, u32, u32, u32),
)
    requires
        valid(first),
        valid(second),
        second_number(first) == second_number(second),
    ensures
        first == second,
{
    let day1 = day_number(first.0 as int, first.1 as int, first.2 as int);
    let day2 = day_number(second.0 as int, second.1 as int, second.2 as int);
    let rest1 = 3_600 * first.3 + 60 * first.4 + first.5;
    let rest2 = 3_600 * second.3 + 60 * second.4 + second.5;
    assert(0 <= rest1 < 86_400);
    assert(0 <= rest2 < 86_400);
    assert(day1 == day2);
    lemma_one_date(
        first.0 as int,
        first.1 as int,
        first.2 as int,
        second.0 as int,
        second.1 as int,
        second.2 as int,
    );
}

// ---------------------------------------------------------------------------
// Lines
// ---------------------------------------------------------------------------
/// A date and a time as text.
pub open spec fn stamp(when: (i64, u32, u32, u32, u32, u32)) -> Seq<char> {
    text::signed_decimal(when.0 as int) + "-"@ + text::two_digits(when.1 as nat) + "-"@
        + text::two_digits(when.2 as nat) + " "@ + text::two_digits(when.3 as nat) + ":"@
        + text::two_digits(when.4 as nat) + ":"@ + text::two_digits(when.5 as nat) + "Z"@
}

/// The date and the time of a number of seconds since the beginning of 1970, as text.
pub fn timestamp(seconds: i64) -> (r: String)
    requires
        seconds >= 0,
    ensures
        exists|when: (i64, u32, u32, u32, u32, u32)|
            #![trigger stamp(when)]
            valid(when) && second_number(when) == seconds && r@ == stamp(when),
{
    let when = civil_from_unix(seconds);
    let mut out = text::write_i64(when.0);
    out.append("-");
    out.append(text::write_two_digits(when.1 as u64).as_str());
    out.append("-");
    out.append(text::write_two_digits(when.2 as u64).as_str());
    out.append(" ");
    out.append(text::write_two_digits(when.3 as u64).as_str());
    out.append(":");
    out.append(text::write_two_digits(when.4 as u64).as_str());
    out.append(":");
    out.append(text::write_two_digits(when.5 as u64).as_str());
    out.append("Z");
    proof {
        assert(out@ =~= stamp(when));
    }
    out
}

/// Whether the finest lines are written, by the value of the environment variable for it.
pub fn debug_enabled(value: Option<&str>) -> (r: bool)
    ensures
        r == (value is Some && value->0@.len() > 0 && value->0@ != "0"@),
{
    match value {
        Some(value) => !value.is_empty() && !text::same(value, "0"),
        None => false,
    }
}

/// The line for a message at a moment; `None` where it is not written.
pub fn line(level: &str, message: &str, seconds: i64, debug: bool) -> (r: Option<String>)
    requires
        seconds >= 0,
    ensures
        r is None <==> level@ == "DEBUG"@ && !debug,
        r matches Some(line) ==> exists|when: (i64, u32, u32, u32, u32, u32)|
            #![trigger stamp(when)]
            valid(when) && second_number(when) == seconds && line@ == stamp(when) + " ["@ + level@
                + "] "@ + message@,
{
    if text::same(level, LEVEL_DEBUG) && !debug {
        return None;
    }
    let stamp = timestamp(seconds);
    Some(text::join5(stamp.as_str(), " [", level, "] ", message))
}

} // verus!
