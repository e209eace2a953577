//! The proleptic Gregorian calendar, and the calendar time of a Unix timestamp.

use vstd::prelude::*;

verus! {

/// The first second of 1 March of the year -2147483600: the earliest timestamp
/// whose calendar arithmetic fits in `i32`.
pub const MIN_EPOCH_SECS: i64 = -67_768_099_048_022_400;

/// The last second of the year 2147483647.
pub const MAX_EPOCH_SECS: i64 = 67_767_976_233_532_799;

/// Whether `year` has a 29 February.
pub open spec fn is_leap(year: int) -> bool {
    year % 4 == 0 && (year % 100 != 0 || year % 400 == 0)
}

/// The number of days of a month, `month` being 1 for January.
pub open spec fn days_in_month(year: int, month: int) -> int {
    if month == 2 {
        if is_leap(year) {
            29
        } else {
            28
        }
    } else if month == 4 || month == 6 || month == 9 || month == 11 {
        30
    } else {
        31
    }
}

/// Whether the three numbers name a day of the calendar.
pub open spec fn is_date(year: int, month: int, day: int) -> bool {
    &&& 1 <= month <= 12
    &&& 1 <= day <= days_in_month(year, month)
}

/// The days from 1 January of the year 1 to 1 January of `year`.
pub open spec fn days_before_year(year: int) -> int {
    365 * (year - 1) + (year - 1) / 4 - (year - 1) / 100 + (year - 1) / 400
}

/// The days of `year` that precede its month `month`.
pub open spec fn days_before_month(year: int, month: int) -> int
    decreases month,
{
    if month <= 1 {
        0
    } else {
        days_before_month(year, month - 1) + days_in_month(year, month - 1)
    }
}

/// The days from 1 January 1970 to a date.
pub open spec fn day_number(year: int, month: int, day: int) -> int {
    days_before_year(year) + days_before_month(year, month) + (day - 1) - days_before_year(1970)
}

/// The seconds from the start of 1 January 1970 to a time of a date.
pub open spec fn epoch_second(
    year: int,
    month: int,
    day: int,
    hour: int,
    minute: int,
    second: int,
) -> int {
    86_400 * day_number(year, month, day) + 3600 * hour + 60 * minute + second
}

/// Whether the six numbers name a second of the calendar.
pub open spec fn is_time(
    year: int,
    month: int,
    day: int,
    hour: int,
    minute: int,
    second: int,
) -> bool {
    &&& is_date(year, month, day)
    &&& 0 <= hour < 24
    &&& 0 <= minute < 60
    &&& 0 <= second < 60
}

/// The days of a 400-year cycle that precede its year `index`, years being counted
/// from 1 March.
spec fn cycle_year_start(index: int) -> int {
    365 * index + index / 4 - index / 100
}

/// The days of a year counted from 1 March that precede its month `index`.
spec fn shifted_month_start(index: int) -> int {
    (153 * index + 2) / 5
}

/// The days that precede each month of a year, and one year more.
proof fn lemma_days_before_month(year: int)
    ensures
        ({
            let leap = if is_leap(year) {
                1int
            } else {
                0
            };
            &&& days_before_month(year, 1) == 0
            &&& days_before_month(year, 2) == 31
            &&& days_before_month(year, 3) == 59 + leap
            &&& days_before_month(year, 4) == 90 + leap
            &&& days_before_month(year, 5) == 120 + leap
            &&& days_before_month(year, 6) == 151 + leap
            &&& days_before_month(year, 7) == 181 + leap
            &&& days_before_month(year, 8) == 212 + leap
            &&& days_before_month(year, 9) == 243 + leap
            &&& days_before_month(year, 10) == 273 + leap
            &&& days_before_month(year, 11) == 304 + leap
            &&& days_before_month(year, 12) == 334 + leap
            &&& days_before_year(year + 1) == days_before_year(year) + 365 + leap
        }),
{
    reveal_with_fuel(days_before_month, 13);
}

/// The year of a century that the day `doc` of the century falls in, a century of the
/// cycle being `century` and the day of the cycle `36_524 * century + doc`.
proof fn lemma_year_of_century(century: int, doc: int, k: int)
    requires
        0 <= century <= 3,
        0 <= doc < 36_524,
        365 * k <= 36_524 * century + doc - (36_524 * century + doc) / 1460 + century,
        36_524 * century + doc - (36_524 * century + doc) / 1460 + century < 365 * k + 365,
    ensures
        100 * century <= k < 100 * century + 100,
        365 * k + k / 4 - century <= 36_524 * century + doc,
        36_524 * century + doc <= 365 * k + k / 4 - century + 365,
        36_524 * century + doc == 365 * k + k / 4 - century + 365 ==> (k + 1) % 4 == 0 && k
            != 100 * century + 99,
{
    let doe = 36_524 * century + doc;
    let q = doe / 1460;
    // The four-year block `a` of the cycle, and the day `b` of that block.
    let a = (doe + century) / 1461;
    let b = (doe + century) % 1461;
    assert(doe + century == 1461 * a + b && 0 <= b < 1461);
    assert(25 * century <= a < 25 * century + 25);
    assert(a == 25 * century + 24 ==> b < 1460);
    assert(1460 * q <= doe < 1460 * q + 1460);
    if a + b - century < 1460 {
        assert(q == a);
        assert(365 * (k - 4 * a) <= b < 365 * (k - 4 * a) + 365);
    } else {
        assert(q == a + 1);
        assert(365 * (k - 4 * a) <= b - 1 < 365 * (k - 4 * a) + 365);
        assert(k - 4 * a == 3);
    }
    assert(0 <= k - 4 * a <= 3);
    assert(k / 4 == a);
}

/// The year of a 400-year cycle that the day `doe` of the cycle falls in.
proof fn lemma_year_of_cycle(doe: int, yoe: int)
    requires
        0 <= doe < 146_097,
        yoe == (doe - doe / 1460 + doe / 36_524 - doe / 146_096) / 365,
    ensures
        0 <= yoe <= 399,
        cycle_year_start(yoe) <= doe,
        doe - cycle_year_start(yoe) <= 365,
        doe - cycle_year_start(yoe) == 365 ==> is_leap(yoe + 1),
{
    if doe < 146_096 {
        let century = doe / 36_524;
        lemma_year_of_century(century, doe - 36_524 * century, yoe);
    }
}

/// The month, counted from March, that the day `doy` of a shifted year falls in.
proof fn lemma_month_of_year(doy: int, mp: int)
    requires
        0 <= doy <= 365,
        mp == (5 * doy + 2) / 153,
    ensures
        0 <= mp <= 11,
        shifted_month_start(mp) <= doy,
        mp < 11 ==> doy < shifted_month_start(mp + 1),
{
}

/// The day of the calendar that is day `doy` of the year from 1 March of `y` on.
proof fn lemma_shifted_month(y: int, doy: int, mp: int)
    requires
        0 <= doy <= 365,
        doy == 365 ==> is_leap(y + 1),
        mp == (5 * doy + 2) / 153,
    ensures
        ({
            let month = if mp < 10 {
                mp + 3
            } else {
                mp - 9
            };
            let year = y + if month <= 2 {
                1int
            } else {
                0
            };
            let day = doy - shifted_month_start(mp) + 1;
            &&& is_date(year, month, day)
            &&& days_before_year(year) + days_before_month(year, month) + day - 1
                == days_before_year(y + 1) - 306 + doy
        }),
{
    lemma_month_of_year(doy, mp);
    lemma_days_before_month(y);
    lemma_days_before_month(y + 1);
    let month = if mp < 10 {
        mp + 3
    } else {
        mp - 9
    };
    assert(shifted_month_start(0) == 0 && shifted_month_start(1) == 31 && shifted_month_start(2)
        == 61 && shifted_month_start(3) == 92 && shifted_month_start(4) == 122
        && shifted_month_start(5) == 153 && shifted_month_start(6) == 184 && shifted_month_start(7)
        == 214 && shifted_month_start(8) == 245 && shifted_month_start(9) == 275
        && shifted_month_start(10) == 306 && shifted_month_start(11) == 337);
    assert(mp == 0 || mp == 1 || mp == 2 || mp == 3 || mp == 4 || mp == 5 || mp == 6 || mp == 7
        || mp == 8 || mp == 9 || mp == 10 || mp == 11);
}

/// The day count of a 1 January, and which years are leap, in terms of the 400-year
/// cycle that holds the year before.
proof fn lemma_year_in_cycle(era: int, yoe: int)
    requires
        0 <= yoe <= 399,
    ensures
        days_before_year(400 * era + yoe + 1) == 146_097 * era + cycle_year_start(yoe),
        is_leap(400 * era + yoe) == is_leap(yoe),
        is_leap(400 * era + yoe + 1) == is_leap(yoe + 1),
{
    let y = 400 * era + yoe;
    assert(y / 4 == 100 * era + yoe / 4);
    assert(y / 100 == 4 * era + yoe / 100);
    assert(y / 400 == era);
}

/// The day count of a date in terms of the 400-year cycle that holds it.
proof fn lemma_day_number_of_cycle(era: int, yoe: int, doy: int, mp: int)
    requires
        0 <= yoe <= 399,
        0 <= doy <= 365,
        doy == 365 ==> is_leap(yoe + 1),
        mp == (5 * doy + 2) / 153,
    ensures
        ({
            let month = if mp < 10 {
                mp + 3
            } else {
                mp - 9
            };
            let year = 400 * era + yoe + if month <= 2 {
                1int
            } else {
                0
            };
            let day = doy - shifted_month_start(mp) + 1;
            &&& is_date(year, month, day)
            &&& day_number(year, month, day) == 146_097 * era + cycle_year_start(yoe) + doy
                - 719_468
        }),
{
    lemma_month_of_year(doy, mp);
    let y = 400 * era + yoe;
    lemma_year_in_cycle(era, yoe);
    lemma_days_before_month(y);
    lemma_days_before_month(y + 1);
    lemma_shifted_month(y, doy, mp);
}

/// The day count of an earlier date is smaller.
proof fn lemma_day_number_ordered(y1: int, m1: int, d1: int, y2: int, m2: int, d2: int)
    requires
        is_date(y1, m1, d1),
        is_date(y2, m2, d2),
        y1 < y2 || (y1 == y2 && (m1 < m2 || (m1 == m2 && d1 < d2))),
    ensures
        day_number(y1, m1, d1) < day_number(y2, m2, d2),
{
    lemma_days_before_month(y1);
    lemma_days_before_month(y2);
    if y1 < y2 {
        assert(days_before_year(y1 + 1) <= days_before_year(y2));
    }
}

/// A date whose day count is within the range of timestamps has a year that fits in `i32`.
proof fn lemma_year_fits(year: int, month: int, day: int)
    requires
        is_date(year, month, day),
        86_400 * day_number(year, month, day) <= MAX_EPOCH_SECS,
    ensures
        year <= i32::MAX,
{
    if year > i32::MAX {
        lemma_days_before_month(2_147_483_647);
        lemma_day_number_ordered(2_147_483_647, 12, 31, year, month, day);
    }
}

/// A date from the epoch on has a year from 1970 on.
pub(crate) proof fn lemma_year_not_before_epoch(year: int, month: int, day: int)
    requires
        is_date(year, month, day),
        day_number(year, month, day) >= 0,
    ensures
        year >= 1970,
{
    if year < 1970 {
        law_epoch_is_day_zero();
        lemma_day_number_ordered(year, month, day, 1970, 1, 1);
    }
}

/// The date of the day `days` after the epoch.
proof fn lemma_date_of_day(days: int, era: int, doe: int, yoe: int, doy: int, mp: int)
    requires
        MIN_EPOCH_SECS <= 86_400 * days <= MAX_EPOCH_SECS,
        era == (days + 719_468) / 146_097,
        doe == days + 719_468 - era * 146_097,
        yoe == (doe - doe / 1460 + doe / 36_524 - doe / 146_096) / 365,
        doy == doe - (365 * yoe + yoe / 4 - yoe / 100),
        mp == (5 * doy + 2) / 153,
    ensures
        0 <= doe < 146_097,
        0 <= yoe <= 399,
        0 <= doy <= 365,
        0 <= mp <= 11,
        (153 * mp + 2) / 5 <= doy,
        -5_368_709 <= era <= 5_368_709,
        ({
            let month = if mp < 10 {
                mp + 3
            } else {
                mp - 9
            };
            let year = 400 * era + yoe + if month <= 2 {
                1int
            } else {
                0
            };
            let day = doy - (153 * mp + 2) / 5 + 1;
            &&& is_date(year, month, day)
            &&& day_number(year, month, day) == days
            &&& year <= i32::MAX
        }),
{
    lemma_year_of_cycle(doe, yoe);
    lemma_month_of_year(doy, mp);
    lemma_day_number_of_cycle(era, yoe, doy, mp);
    let month = if mp < 10 {
        mp + 3
    } else {
        mp - 9
    };
    let year = 400 * era + yoe + if month <= 2 {
        1int
    } else {
        0
    };
    lemma_year_fits(year, month, doy - (153 * mp + 2) / 5 + 1);
}

/// Splits a Unix timestamp into the year, month, day, hour, minute and second of the
/// proleptic Gregorian calendar in UTC.
pub fn epoch_to_ymdhms(secs: i64) -> (t: (i32, u32, u32, u32, u32, u32))
    requires
        MIN_EPOCH_SECS <= secs <= MAX_EPOCH_SECS,
    ensures
        is_time(t.0 as int, t.1 as int, t.2 as int, t.3 as int, t.4 as int, t.5 as int),
        epoch_second(t.0 as int, t.1 as int, t.2 as int, t.3 as int, t.4 as int, t.5 as int)
            == secs,
{
    let days_since_epoch: i64 = secs.checked_div_euclid(86_400).unwrap();
    let secs_today: u32 = secs.checked_rem_euclid(86_400).unwrap() as u32;
    let hour: u32 = secs_today / 3600;
    let min: u32 = (secs_today % 3600) / 60;
    let sec: u32 = secs_today % 60;
    proof {
        let era = (days_since_epoch + 719_468) / 146_097;
        let doe = days_since_epoch + 719_468 - era * 146_097;
        let yoe = (doe - doe / 1460 + doe / 36_524 - doe / 146_096) / 365;
        let doy = doe - (365 * yoe + yoe / 4 - yoe / 100);
        lemma_date_of_day(days_since_epoch as int, era, doe, yoe, doy, (5 * doy + 2) / 153);
    }
    let z: i64 = days_since_epoch + 719_468;
    let era: i64 = z.checked_div_euclid(146_097).unwrap();
    let doe: u32 = (z - era * 146_097) as u32;
    let yoe: u32 = (doe - doe / 1460 + doe / 36_524 - doe / 146_096) / 365;
    let y: i32 = yoe as i32 + era as i32 * 400;
    let doy: u32 = doe - (365 * yoe + yoe / 4 - yoe / 100);
    let mp: u32 = (5 * doy + 2) / 153;
    let d: u32 = doy - (153 * mp + 2) / 5 + 1;
    let m: u32 = if mp < 10 {
        mp + 3
    } else {
        mp - 9
    };
    let year: i32 = if m <= 2 {
        y + 1
    } else {
        y
    };
    (year, m, d, hour, min, sec)
}

/// The calendar starts its count on 1 January 1970.
pub proof fn law_epoch_is_day_zero()
    ensures
        day_number(1970, 1, 1) == 0,
{
    reveal_with_fuel(days_before_month, 2);
}

/// The date that follows a date: the next day of its month, else the first of the next
/// month, else 1 January of the next year.
pub open spec fn next_date(year: int, month: int, day: int) -> (int, int, int) {
    if day < days_in_month(year, month) {
        (year, month, day + 1)
    } else if month < 12 {
        (year, month + 1, 1)
    } else {
        (year + 1, 1, 1)
    }
}

/// Consecutive dates have consecutive day counts: the closed formula of the day count
/// agrees with counting the days of the calendar one by one.
pub proof fn law_days_count_up(year: int, month: int, day: int)
    requires
        is_date(year, month, day),
    ensures
        ({
            let next = next_date(year, month, day);
            &&& is_date(next.0, next.1, next.2)
            &&& day_number(next.0, next.1, next.2) == day_number(year, month, day) + 1
        }),
{
    lemma_days_before_month(year);
    lemma_days_before_month(year + 1);
}

/// No two calendar times share a timestamp, so the calendar time of a timestamp is unique.
pub proof fn law_calendar_time_is_unique(
    a: (int, int, int, int, int, int),
    b: (int, int, int, int, int, int),
)
    requires
        is_time(a.0, a.1, a.2, a.3, a.4, a.5),
        is_time(b.0, b.1, b.2, b.3, b.4, b.5),
        epoch_second(a.0, a.1, a.2, a.3, a.4, a.5) == epoch_second(b.0, b.1, b.2, b.3, b.4, b.5),
    ensures
        a == b,
{
    assert(day_number(a.0, a.1, a.2) == day_number(b.0, b.1, b.2));
    if (a.0, a.1, a.2) != (b.0, b.1, b.2) {
        if a.0 < b.0 || (a.0 == b.0 && (a.1 < b.1 || (a.1 == b.1 && a.2 < b.2))) {
            lemma_day_number_ordered(a.0, a.1, a.2, b.0, b.1, b.2);
        } else {
            lemma_day_number_ordered(b.0, b.1, b.2, a.0, a.1, a.2);
        }
    }
}

/// The lengths of the months: a February has a 29th in every fourth year, but in the last
/// year of a century only if that is a fourth century.
pub proof fn law_month_lengths(year: int)
    ensures
        days_in_month(year, 1) == 31,
        year % 400 == 0 ==> days_in_month(year, 2) == 29,
        year % 400 != 0 && year % 100 == 0 ==> days_in_month(year, 2) == 28,
        year % 100 != 0 && year % 4 == 0 ==> days_in_month(year, 2) == 29,
        year % 4 != 0 ==> days_in_month(year, 2) == 28,
        days_in_month(year, 3) == 31,
        days_in_month(year, 4) == 30,
        days_in_month(year, 5) == 31,
        days_in_month(year, 6) == 30,
        days_in_month(year, 7) == 31,
        days_in_month(year, 8) == 31,
        days_in_month(year, 9) == 30,
        days_in_month(year, 10) == 31,
        days_in_month(year, 11) == 30,
        days_in_month(year, 12) == 31,
{
}

/// The days of the calendar are the days of its twelve months, and its times are the seconds
/// of its days.
pub proof fn law_dates_and_times(
    year: int,
    month: int,
    day: int,
    hour: int,
    minute: int,
    second: int,
)
    ensures
        is_date(year, month, day) <==> 0 < month < 13 && 0 < day && day <= days_in_month(
            year,
            month,
        ),
        is_time(year, month, day, hour, minute, second) <==> is_date(year, month, day) && 0 <= hour
            <= 23 && 0 <= minute <= 59 && 0 <= second <= 59,
{
}

/// The day after the last of December is the first of January of the next year, that after
/// the last of another month the first of the next month, and that after another day the next
/// of the same month.
pub proof fn law_next_date(year: int, month: int, day: int)
    requires
        is_date(year, month, day),
    ensures
        next_date(year, 12, 31) == (year + 1, 1int, 1int),
        month < 12 ==> next_date(year, month, days_in_month(year, month)) == (
            year,
            month + 1,
            1int,
        ),
        day < days_in_month(year, month) ==> next_date(year, month, day) == (year, month, day + 1),
{
}

/// Timestamps count the seconds of the calendar one by one, from the first second of 1970 on:
/// over the end of a minute, an hour and a day.
pub proof fn law_seconds_count_up(
    year: int,
    month: int,
    day: int,
    hour: int,
    minute: int,
    second: int,
)
    requires
        is_date(year, month, day),
    ensures
        epoch_second(1970, 1, 1, 0, 0, 0) == 0,
        epoch_second(year, month, day, hour, minute, second + 1) == epoch_second(
            year,
            month,
            day,
            hour,
            minute,
            second,
        ) + 1,
        epoch_second(year, month, day, hour, minute + 1, 0) == epoch_second(
            year,
            month,
            day,
            hour,
            minute,
            59,
        ) + 1,
        epoch_second(year, month, day, hour + 1, 0, 0) == epoch_second(
            year,
            month,
            day,
            hour,
            59,
            59,
        ) + 1,
        ({
            let next = next_date(year, month, day);
            epoch_second(next.0, next.1, next.2, 0, 0, 0) == epoch_second(
                year,
                month,
                day,
                23,
                59,
                59,
            ) + 1
        }),
{
    law_epoch_is_day_zero();
    law_days_count_up(year, month, day);
}

/// The timestamps that can be split reach from the first of March of the year -2147483600 to
/// the end of the last year that fits in `i32`.
pub proof fn law_range_of_timestamps()
    ensures
        MIN_EPOCH_SECS == epoch_second(-2_147_483_600, 3, 1, 0, 0, 0),
        MAX_EPOCH_SECS == epoch_second(i32::MAX as int, 12, 31, 23, 59, 59),
{
    lemma_days_before_month(-2_147_483_600);
    lemma_days_before_month(i32::MAX as int);
}

} // verus!
