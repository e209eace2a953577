//! The time of day, as the gateway's records write it.

use std::time::{Duration, SystemTime, SystemTimeError};
use vstd::prelude::*;

use crate::calendar::{
    epoch_second, epoch_to_ymdhms, is_time, law_calendar_time_is_unique,
    lemma_year_not_before_epoch, MAX_EPOCH_SECS,
};
use crate::envelope::option_view;
use crate::text::{decimal, padded, push_decimal, push_padded};

verus! {

/// `std::time::SystemTime`: a reading of the system clock.
#[verifier::external_type_specification]
#[verifier::external_body]
pub struct ExSystemTime(SystemTime);

/// `std::time::SystemTimeError`: how far a reading lies before the time it is compared to.
#[verifier::external_type_specification]
#[verifier::external_body]
pub struct ExSystemTimeError(SystemTimeError);

/// `std::time::SystemTime::now` reads the clock, of which nothing is known.
pub assume_specification[ SystemTime::now ]() -> (now: SystemTime)
;

/// The nanoseconds from the Unix epoch to a reading of the clock; negative for a reading
/// before the epoch.
pub uninterp spec fn epoch_nanos(now: SystemTime) -> int;

/// The nanoseconds that a duration spans.
pub uninterp spec fn duration_nanos(duration: Duration) -> nat;

/// `std::time::SystemTime::duration_since`, from the Unix epoch on: the time from the epoch
/// to a reading, and an error for a reading before the epoch.
#[verifier::external_body]
fn since_epoch(now: SystemTime) -> (since: Result<Duration, SystemTimeError>)
    ensures
        match since {
            Ok(since) => epoch_nanos(now) == duration_nanos(since),
            Err(_) => epoch_nanos(now) < 0,
        },
{
    now.duration_since(SystemTime::UNIX_EPOCH)
}

/// `std::time::Duration::as_secs` gives the whole seconds of a duration.
pub assume_specification[ Duration::as_secs ](duration: &Duration) -> (secs: u64)
    ensures
        secs == duration_nanos(*duration) / 1_000_000_000,
;

/// `std::time::Duration::subsec_millis` gives the whole milliseconds of the last, partial
/// second of a duration.
pub assume_specification[ Duration::subsec_millis ](duration: &Duration) -> (millis: u32)
    ensures
        millis == (duration_nanos(*duration) / 1_000_000) % 1000,
;

/// The nanoseconds after the epoch that a reading of the clock stands for: one before the
/// epoch counts as the epoch.
pub open spec fn shown_nanos(now: SystemTime) -> nat {
    if epoch_nanos(now) < 0 {
        0
    } else {
        epoch_nanos(now) as nat
    }
}

/// The text that marks the second `secs` after the epoch.
pub open spec fn marker_text(secs: nat) -> Seq<char> {
    "@"@ + decimal(secs)
}

/// The text that marks the second `secs` after the epoch.
pub fn marker(secs: u64) -> (text: String)
    ensures
        text@ == marker_text(secs as nat),
{
    let mut text: String = "@".to_owned();
    push_decimal(&mut text, secs as u128);
    text
}

/// Whether `text` marks the second of a reading of the clock.
pub open spec fn is_marker_of(text: Seq<char>, now: SystemTime) -> bool {
    text == marker_text(shown_nanos(now) / 1_000_000_000)
}

/// The text that marks the current second; a clock before the epoch counts as the epoch.
pub fn now_marker() -> (text: String)
    ensures
        exists|now: SystemTime| is_marker_of(text@, now),
{
    let now = SystemTime::now();
    let secs: u64 = match since_epoch(now) {
        Ok(since) => since.as_secs(),
        Err(_) => 0,
    };
    let text = marker(secs);
    assert(is_marker_of(text@, now));
    text
}

/// A calendar time with milliseconds as RFC 3339 writes it, in UTC.
pub open spec fn rfc3339_text(
    year: nat,
    month: nat,
    day: nat,
    hour: nat,
    minute: nat,
    second: nat,
    millis: nat,
) -> Seq<char> {
    padded(year, 4) + "-"@ + padded(month, 2) + "-"@ + padded(day, 2) + "T"@ + padded(hour, 2)
        + ":"@ + padded(minute, 2) + ":"@ + padded(second, 2) + "."@ + padded(millis, 3) + "Z"@
}

/// Whether `t` is the calendar time of the second `secs` after the epoch, and `text` writes
/// it with `millis` milliseconds.
pub open spec fn writes(
    text: Seq<char>,
    t: (nat, nat, nat, nat, nat, nat),
    secs: nat,
    millis: nat,
) -> bool {
    &&& is_time(t.0 as int, t.1 as int, t.2 as int, t.3 as int, t.4 as int, t.5 as int)
    &&& epoch_second(t.0 as int, t.1 as int, t.2 as int, t.3 as int, t.4 as int, t.5 as int) == secs
    &&& text == rfc3339_text(t.0, t.1, t.2, t.3, t.4, t.5, millis)
}

/// Whether `text` writes the calendar time of the second `secs` after the epoch, and
/// `millis` milliseconds.
pub open spec fn is_timestamp(text: Seq<char>, secs: nat, millis: nat) -> bool {
    exists|t: (nat, nat, nat, nat, nat, nat)| writes(text, t, secs, millis)
}

/// Writes the calendar time of the second `secs` after the epoch, and `millis`
/// milliseconds; none for a second whose year does not fit in `i32`.
pub fn rfc3339_millis(secs: u64, millis: u32) -> (text: Option<String>)
    ensures
        match text {
            Some(text) => secs <= MAX_EPOCH_SECS && is_timestamp(text@, secs as nat, millis as nat),
            None => secs > MAX_EPOCH_SECS,
        },
{
    if secs > MAX_EPOCH_SECS as u64 {
        return None;
    }
    let (year, month, day, hour, minute, second) = epoch_to_ymdhms(secs as i64);
    proof {
        lemma_year_not_before_epoch(year as int, month as int, day as int);
    }
    let mut text = String::new();
    push_padded(&mut text, year as u128, 4);
    text.append("-");
    push_padded(&mut text, month as u128, 2);
    text.append("-");
    push_padded(&mut text, day as u128, 2);
    text.append("T");
    push_padded(&mut text, hour as u128, 2);
    text.append(":");
    push_padded(&mut text, minute as u128, 2);
    text.append(":");
    push_padded(&mut text, second as u128, 2);
    text.append(".");
    push_padded(&mut text, millis as u128, 3);
    text.append("Z");
    let ghost t = (
        year as nat,
        month as nat,
        day as nat,
        hour as nat,
        minute as nat,
        second as nat,
    );
    assert(writes(text@, t, secs as nat, millis as nat));
    Some(text)
}

/// Whether `text` is what is written for a reading of the clock: its timestamp, or nothing
/// if its year does not fit in `i32`.
pub open spec fn is_written_for(text: Option<Seq<char>>, now: SystemTime) -> bool {
    let secs = shown_nanos(now) / 1_000_000_000;
    let millis = (shown_nanos(now) / 1_000_000) % 1000;
    match text {
        Some(text) => secs <= MAX_EPOCH_SECS && is_timestamp(text, secs, millis),
        None => secs > MAX_EPOCH_SECS,
    }
}

/// Writes the current time; a clock before the epoch counts as the epoch. None for a clock
/// that shows a year that does not fit in `i32`.
pub fn rfc3339_now_millis() -> (text: Option<String>)
    ensures
        exists|now: SystemTime| is_written_for(option_view(text), now),
{
    let now = SystemTime::now();
    let (secs, millis): (u64, u32) = match since_epoch(now) {
        Ok(since) => (since.as_secs(), since.subsec_millis()),
        Err(_) => (0, 0),
    };
    let text = rfc3339_millis(secs, millis);
    assert(is_written_for(option_view(text), now));
    text
}

/// A moment has one timestamp only.
pub proof fn law_timestamp_is_unique(a: Seq<char>, b: Seq<char>, secs: nat, millis: nat)
    requires
        is_timestamp(a, secs, millis),
        is_timestamp(b, secs, millis),
    ensures
        a == b,
{
    let t = choose|t: (nat, nat, nat, nat, nat, nat)| writes(a, t, secs, millis);
    let u = choose|u: (nat, nat, nat, nat, nat, nat)| writes(b, u, secs, millis);
    law_calendar_time_is_unique(
        (t.0 as int, t.1 as int, t.2 as int, t.3 as int, t.4 as int, t.5 as int),
        (u.0 as int, u.1 as int, u.2 as int, u.3 as int, u.4 as int, u.5 as int),
    );
}

/// A marker is an `@` and the numeral of the second.
pub proof fn law_marker_text(secs: nat)
    ensures
        marker_text(secs).len() == decimal(secs).len() + 1,
        marker_text(secs)[0] == '@',
        marker_text(secs).skip(1) == decimal(secs),
{
    reveal_strlit("@");
    assert(marker_text(secs).skip(1) =~= decimal(secs));
}

/// The marker of a reading names the whole seconds from the epoch to the reading, and second
/// zero for a reading before the epoch.
pub proof fn law_marker_of_a_reading(text: Seq<char>, now: SystemTime, secs: nat)
    requires
        is_marker_of(text, now),
        epoch_nanos(now) >= 0 ==> secs * 1_000_000_000 <= epoch_nanos(now) < (secs + 1)
            * 1_000_000_000,
        epoch_nanos(now) < 0 ==> secs == 0,
    ensures
        text == seq!['@'] + decimal(secs),
{
    reveal_strlit("@");
    assert("@"@ =~= seq!['@']);
    assert(shown_nanos(now) / 1_000_000_000 == secs);
}

/// The numeral of a small number, padded, has the width that it is padded to.
proof fn lemma_padded_width(n: nat)
    ensures
        n < 100 ==> padded(n, 2).len() == 2,
        n < 1000 ==> padded(n, 3).len() == 3,
{
    reveal_with_fuel(decimal, 4);
}

/// A timestamp is the year, in four digits or as many as it takes, and nineteen characters and
/// a `Z` behind it: month, day, hour, minute and second in two digits each, milliseconds in
/// three, with `-`, `-`, `T`, `:`, `:` and `.` before them.
pub proof fn law_timestamp_layout(
    year: nat,
    month: nat,
    day: nat,
    hour: nat,
    minute: nat,
    second: nat,
    millis: nat,
)
    requires
        month < 100,
        day < 100,
        hour < 100,
        minute < 100,
        second < 100,
        millis < 1000,
    ensures
        ({
            let text = rfc3339_text(year, month, day, hour, minute, second, millis);
            let n = padded(year, 4).len() as int;
            &&& text.len() == n + 20
            &&& text.take(n) == padded(year, 4)
            &&& text[n] == '-'
            &&& text.subrange(n + 1, n + 3) == padded(month, 2)
            &&& text[n + 3] == '-'
            &&& text.subrange(n + 4, n + 6) == padded(day, 2)
            &&& text[n + 6] == 'T'
            &&& text.subrange(n + 7, n + 9) == padded(hour, 2)
            &&& text[n + 9] == ':'
            &&& text.subrange(n + 10, n + 12) == padded(minute, 2)
            &&& text[n + 12] == ':'
            &&& text.subrange(n + 13, n + 15) == padded(second, 2)
            &&& text[n + 15] == '.'
            &&& text.subrange(n + 16, n + 19) == padded(millis, 3)
            &&& text[n + 19] == 'Z'
        }),
{
    reveal_strlit("-");
    reveal_strlit("T");
    reveal_strlit(":");
    reveal_strlit(".");
    reveal_strlit("Z");
    lemma_padded_width(month);
    lemma_padded_width(day);
    lemma_padded_width(hour);
    lemma_padded_width(minute);
    lemma_padded_width(second);
    lemma_padded_width(millis);
    let text = rfc3339_text(year, month, day, hour, minute, second, millis);
    let n = padded(year, 4).len() as int;
    assert(text.take(n) =~= padded(year, 4));
    assert(text.subrange(n + 1, n + 3) =~= padded(month, 2));
    assert(text.subrange(n + 4, n + 6) =~= padded(day, 2));
    assert(text.subrange(n + 7, n + 9) =~= padded(hour, 2));
    assert(text.subrange(n + 10, n + 12) =~= padded(minute, 2));
    assert(text.subrange(n + 13, n + 15) =~= padded(second, 2));
    assert(text.subrange(n + 16, n + 19) =~= padded(millis, 3));
}

/// The timestamp of a second is the text of the calendar time that the second has, and no
/// other text.
pub proof fn law_timestamp_is_the_calendar_time(
    text: Seq<char>,
    t: (nat, nat, nat, nat, nat, nat),
    secs: nat,
    millis: nat,
)
    requires
        is_time(t.0 as int, t.1 as int, t.2 as int, t.3 as int, t.4 as int, t.5 as int),
        epoch_second(t.0 as int, t.1 as int, t.2 as int, t.3 as int, t.4 as int, t.5 as int)
            == secs,
    ensures
        is_timestamp(text, secs, millis) <==> text == rfc3339_text(
            t.0,
            t.1,
            t.2,
            t.3,
            t.4,
            t.5,
            millis,
        ),
{
    let own = rfc3339_text(t.0, t.1, t.2, t.3, t.4, t.5, millis);
    assert(writes(own, t, secs, millis));
    if is_timestamp(text, secs, millis) {
        law_timestamp_is_unique(text, own, secs, millis);
    }
}

/// What is written for a reading is the timestamp of its whole milliseconds from the epoch on,
/// the epoch itself for a reading before it, and nothing exactly if the year does not fit.
pub proof fn law_what_is_written_for_a_reading(
    text: Option<Seq<char>>,
    now: SystemTime,
    secs: nat,
    millis: nat,
)
    requires
        is_written_for(text, now),
        millis < 1000,
        epoch_nanos(now) >= 0 ==> (secs * 1000 + millis) * 1_000_000 <= epoch_nanos(now) < (secs
            * 1000 + millis + 1) * 1_000_000,
        epoch_nanos(now) < 0 ==> secs == 0 && millis == 0,
    ensures
        text is None <==> secs > MAX_EPOCH_SECS,
        text is Some ==> is_timestamp(text->0, secs, millis),
{
    assert(shown_nanos(now) / 1_000_000 == secs * 1000 + millis);
    assert(shown_nanos(now) / 1_000_000_000 == secs);
    assert((secs * 1000 + millis) % 1000 == millis);
}

} // verus!
