//! The schedule engine: cron expressions and their occurrences.

use std::str::FromStr;

use chrono::DateTime;
use chrono::Utc;
use cron::Schedule;
use vstd::prelude::*;

use crate::error::RecollectError;
use crate::time::Timestamp;
use crate::time::MAX_SECS;
use crate::time::MIN_SECS;

verus! {

/// `cron::Schedule`: a parsed cron expression. Nothing inside it is seen
/// here; it is known by the text it was parsed from.
#[verifier::external_type_specification]
#[verifier::external_body]
pub struct ExSchedule(cron::Schedule);

/// `cron::error::Error`: why a text is no cron expression.
#[verifier::external_type_specification]
#[verifier::external_body]
pub struct ExCronError(cron::error::Error);

/// Whether `Schedule::from_str` takes `text` for a cron expression.
pub uninterp spec fn cron_accepts(text: Seq<char>) -> bool;

/// What `Schedule::source` returns: the text that the schedule was parsed
/// from.
pub uninterp spec fn schedule_source(schedule: Schedule) -> Seq<char>;

/// The first item of the iterator that `Schedule::after` returns for the
/// schedule parsed from `text` and the instant `(secs, nanos)` in UTC, as
/// seconds and nanoseconds; none where the iterator is empty, or where
/// `chrono` has no such instant.
pub uninterp spec fn cron_next(text: Seq<char>, secs: i64, nanos: u32) -> Option<(i64, u32)>;

/// `Schedule::from_str`. It succeeds on exactly the texts that `cron_accepts`
/// names, and the schedule that it returns keeps the text as its source.
#[verifier::external_body]
pub(crate) fn parse_schedule(text: &str) -> (parsed: Result<Schedule, cron::error::Error>)
    ensures
        parsed is Ok <==> cron_accepts(text@),
        parsed matches Ok(schedule) ==> schedule_source(schedule) == text@,
{
    Schedule::from_str(text)
}

/// `Schedule::after` in UTC, and the first item of the iterator it returns.
/// The result depends on nothing but the text that the schedule was parsed
/// from and the instant. The search starts one second after the instant,
/// and `chrono` panics where it cannot add that second: the seconds are to
/// lie in the years 0000 to 9999, far from the ends of its range.
#[verifier::external_body]
fn first_after(schedule: &Schedule, secs: i64, nanos: u32) -> (next: Option<(i64, u32)>)
    requires
        MIN_SECS <= secs <= MAX_SECS,
    ensures
        next == cron_next(schedule_source(*schedule), secs, nanos),
{
    let from = DateTime::<Utc>::from_timestamp(secs, nanos)?;
    let next = schedule.after(&from).next()?;
    Some((next.timestamp(), next.timestamp_subsec_nanos()))
}

/// Tests whether `schedule` is a cron expression.
pub fn validate_schedule(schedule: &str) -> (checked: Result<(), RecollectError>)
    ensures
        cron_accepts(schedule@) ==> checked is Ok,
        !cron_accepts(schedule@) ==> (checked matches Err(RecollectError::ParseSchedError(text))
            && text@ == schedule@),
{
    match parse_schedule(schedule) {
        Ok(_) => Ok(()),
        Err(_) => Err(RecollectError::ParseSchedError(schedule.to_owned())),
    }
}

/// The occurrence of the expression `text` that follows `after`: what `cron`
/// finds, provided that `after` lies in the years 0000 to 9999 and that the
/// instant found lies strictly after it.
pub open spec fn next_instant(text: Seq<char>, after: Timestamp) -> Option<Timestamp> {
    if after.in_calendar() {
        match cron_next(text, after.secs, after.nanos) {
            Some((secs, nanos)) => {
                let found = Timestamp { secs, nanos };
                if after.before(found) {
                    Some(found)
                } else {
                    None
                }
            },
            None => None,
        }
    } else {
        None
    }
}

/// The earliest occurrence of `schedule` strictly after `after`, if there is one.
pub fn next_occurrence(schedule: &Schedule, after: Timestamp) -> (next: Option<Timestamp>)
    ensures
        next == next_instant(schedule_source(*schedule), after),
{
    if !after.is_in_calendar() {
        return None;
    }
    match first_after(schedule, after.secs, after.nanos) {
        Some((secs, nanos)) => {
            let found = Timestamp { secs, nanos };
            if after.is_before(&found) {
                Some(found)
            } else {
                None
            }
        },
        None => None,
    }
}

/// The next `n` occurrences of the expression `text` after `from`, each one
/// searched from the one before it; fewer where the schedule runs out.
pub open spec fn occurrences(text: Seq<char>, from: Timestamp, n: nat) -> Seq<Timestamp>
    decreases n,
{
    if n == 0 {
        Seq::empty()
    } else {
        match next_instant(text, from) {
            Some(found) => seq![found] + occurrences(text, found, (n - 1) as nat),
            None => Seq::empty(),
        }
    }
}

/// The next `n` occurrences of `schedule` after `from`, earliest first. A
/// fresh call starts again at `from`.
pub fn timeline(schedule: &Schedule, from: Timestamp, n: usize) -> (times: Vec<Timestamp>)
    ensures
        times@ == occurrences(schedule_source(*schedule), from, n as nat),
{
    let ghost text = schedule_source(*schedule);
    let mut times: Vec<Timestamp> = Vec::new();
    let mut last = from;
    let mut left: usize = n;
    while left > 0
        invariant
            text == schedule_source(*schedule),
            occurrences(text, from, n as nat) == times@ + occurrences(text, last, left as nat),
        decreases left,
    {
        match next_occurrence(schedule, last) {
            Some(found) => {
                assert(occurrences(text, last, left as nat) == seq![found] + occurrences(
                    text,
                    found,
                    (left - 1) as nat,
                ));
                times.push(found);
                last = found;
                left = left - 1;
            },
            None => {
                left = 0;
            },
        }
    }
    times
}

/// The occurrence after an instant lies strictly after that instant, and the
/// occurrence after that one strictly after it: a search that starts at its
/// own result never returns that result again.
pub proof fn next_instant_advances(text: Seq<char>, after: Timestamp)
    ensures
        next_instant(text, after) matches Some(first) ==> after.before(first) && (next_instant(
            text,
            first,
        ) matches Some(second) ==> first.before(second) && second != first),
{
}

/// A timeline holds at most `n` instants, all of them after `from`, each
/// strictly after the one before it.
pub proof fn occurrences_ascend(text: Seq<char>, from: Timestamp, n: nat)
    ensures
        occurrences(text, from, n).len() <= n,
        forall|i: int|
            0 <= i < occurrences(text, from, n).len() ==> from.before(
                #[trigger] occurrences(text, from, n)[i],
            ),
        forall|i: int, j: int|
            0 <= i < j < occurrences(text, from, n).len() ==> (#[trigger] occurrences(
                text,
                from,
                n,
            )[i]).before(#[trigger] occurrences(text, from, n)[j]),
    decreases n,
{
    if n > 0 {
        match next_instant(text, from) {
            Some(found) => {
                let rest = occurrences(text, found, (n - 1) as nat);
                occurrences_ascend(text, found, (n - 1) as nat);
                assert(occurrences(text, from, n) == seq![found] + rest);
                assert forall|i: int| 0 <= i < occurrences(text, from, n).len() implies from.before(
                    #[trigger] occurrences(text, from, n)[i],
                ) by {
                    if i > 0 {
                        assert(occurrences(text, from, n)[i] == rest[i - 1]);
                    }
                }
                assert forall|i: int, j: int|
                    0 <= i < j < occurrences(text, from, n).len() implies (#[trigger] occurrences(
                    text,
                    from,
                    n,
                )[i]).before(#[trigger] occurrences(text, from, n)[j]) by {
                    assert(occurrences(text, from, n)[j] == rest[j - 1]);
                    if i > 0 {
                        assert(occurrences(text, from, n)[i] == rest[i - 1]);
                    }
                }
            },
            None => {},
        }
    }
}

} // verus!
