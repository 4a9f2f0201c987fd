//! The league calendar: weekly game slots on Saturday evening (UTC).

use vstd::prelude::*;

verus! {

pub const SECONDS_PER_DAY: i64 = 86_400;

pub const SECONDS_PER_WEEK: i64 = 604_800;

/// Saturday, counted in days from Monday.
pub const GAME_WEEKDAY: u32 = 5;

/// 22:00, in seconds after midnight.
pub const GAME_SECOND_OF_DAY: u32 = 79_200;

/// Instants further than this from the epoch (about 190,000 years) are
/// outside the calendar and never a game slot.
pub const CALENDAR_LIMIT: i64 = 6_000_000_000_000;

/// The instant lies within the supported calendar.
pub open spec fn in_calendar(ts: int) -> bool {
    -CALENDAR_LIMIT <= ts <= CALENDAR_LIMIT
}

/// Whole days from the epoch to the day that contains `ts`.
pub open spec fn day_number(ts: int) -> int {
    ts / 86_400
}

/// Seconds elapsed since midnight (UTC) at `ts`.
pub open spec fn second_of_day(ts: int) -> int {
    ts % 86_400
}

/// Day of the week at `ts`, counted from Monday = 0. The epoch was a Thursday.
pub open spec fn weekday_from_monday(ts: int) -> int {
    (day_number(ts) + 3) % 7
}

/// The weekly slot in which games kick off: Saturday, within the minute
/// that starts at 22:00 UTC.
pub open spec fn is_game_slot(ts: int) -> bool {
    &&& in_calendar(ts)
    &&& weekday_from_monday(ts) == GAME_WEEKDAY
    &&& GAME_SECOND_OF_DAY <= second_of_day(ts) < GAME_SECOND_OF_DAY + 60
}

/// Day of the week of an instant, as `chrono` sees it:
/// `DateTime::from_timestamp` followed by `Datelike::weekday` and
/// `Weekday::num_days_from_monday`. Trusted: within the calendar the
/// conversion succeeds and the weekday is the one that follows from the
/// epoch having been a Thursday.
#[verifier::external_body]
fn utc_weekday(ts: i64) -> (r: Option<u32>)
    ensures
        in_calendar(ts as int) ==> r == Some(weekday_from_monday(ts as int) as u32),
{
    chrono::DateTime::from_timestamp(ts, 0).map(|t| chrono::Datelike::weekday(&t).num_days_from_monday())
}

/// Time of day of an instant, as `chrono` sees it:
/// `DateTime::from_timestamp` followed by
/// `Timelike::num_seconds_from_midnight`. Trusted: within the calendar the
/// conversion succeeds and gives the seconds since the last UTC midnight.
#[verifier::external_body]
fn utc_second_of_day(ts: i64) -> (r: Option<u32>)
    ensures
        in_calendar(ts as int) ==> r == Some(second_of_day(ts as int) as u32),
{
    chrono::DateTime::from_timestamp(ts, 0).map(|t| chrono::Timelike::num_seconds_from_midnight(&t))
}

/// Tells whether games may kick off at `ts`.
pub fn is_valid_game_time(ts: i64) -> (ok: bool)
    ensures
        ok == is_game_slot(ts as int),
{
    if ts < -CALENDAR_LIMIT || ts > CALENDAR_LIMIT {
        return false;
    }
    match (utc_weekday(ts), utc_second_of_day(ts)) {
        (Some(weekday), Some(second)) => {
            weekday == GAME_WEEKDAY && GAME_SECOND_OF_DAY <= second && second < GAME_SECOND_OF_DAY
                + 60
        },
        _ => false,
    }
}

/// The calendar day, counted from the epoch, that contains `ts`.
pub fn epoch_day(ts: i64) -> (day: i64)
    ensures
        day == day_number(ts as int),
{
    if ts >= 0 {
        ts / SECONDS_PER_DAY
    } else {
        let before: i64 = -(ts + 1);
        let q: i64 = before / SECONDS_PER_DAY;
        -q - 1
    }
}

/// Tells whether the instant `ts` falls on calendar day `day`.
pub fn falls_on(ts: i64, day: i64) -> (b: bool)
    ensures
        b == (day_number(ts as int) == day),
{
    epoch_day(ts) == day
}

/// Kickoff of the round played `rounds` weeks after `start`.
pub open spec fn weeks_after(start: int, rounds: int) -> int {
    start + rounds * 604_800
}

/// A game slot stays a game slot one week later.
pub proof fn lemma_slot_repeats_weekly(ts: int)
    requires
        is_game_slot(ts),
        in_calendar(ts + SECONDS_PER_WEEK),
    ensures
        is_game_slot(ts + SECONDS_PER_WEEK),
{
    let later = ts + 604_800;
    assert(later == 7 * 86_400 + ts);
    assert(day_number(later) == day_number(ts) + 7 && second_of_day(later) == second_of_day(ts))
        by {
        vstd::arithmetic::div_mod::lemma_fundamental_div_mod_converse(
            later,
            86_400,
            day_number(ts) + 7,
            second_of_day(ts),
        );
    }
}

} // verus!
