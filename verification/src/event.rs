//! One reminder: its schedule, its texts, and the instant at which it is due.

use cron::Schedule;
use vstd::prelude::*;

use crate::error::RecollectError;
use crate::schedule::cron_accepts;
use crate::schedule::next_instant;
use crate::schedule::next_occurrence;
use crate::schedule::occurrences;
use crate::schedule::parse_schedule;
use crate::schedule::schedule_source;
use crate::schedule::timeline;
use crate::time::Timestamp;

verus! {

/// A reminder that recurs on a cron schedule.
///
/// The schedule is always a cron expression: every way of making or changing
/// an event tests the text first.
#[derive(Debug)]
pub struct Event {
    schedule: String,
    summary: String,
    body: String,
    disabled: bool,
    upcoming: Option<Timestamp>,
}

/// What an event holds.
pub struct EventView {
    /// The cron expression.
    pub schedule: Seq<char>,
    /// The first text of the notification.
    pub summary: Seq<char>,
    /// The second text of the notification.
    pub body: Seq<char>,
    /// Whether the event is kept from firing.
    pub disabled: bool,
    /// The instant at which the notification is due, once it is known.
    pub upcoming: Option<Timestamp>,
}

impl View for Event {
    type V = EventView;

    closed spec fn view(&self) -> EventView {
        EventView {
            schedule: self.schedule@,
            summary: self.summary@,
            body: self.body@,
            disabled: self.disabled,
            upcoming: self.upcoming,
        }
    }
}

/// What the events of a list hold, in order.
pub open spec fn event_views(events: Seq<Event>) -> Seq<EventView> {
    Seq::new(events.len(), |i: int| events[i]@)
}

/// `true` or `false`, as Rust prints a `bool`.
pub open spec fn bool_text(value: bool) -> Seq<char> {
    if value {
        "true"@
    } else {
        "false"@
    }
}

impl EventView {
    /// Whether two events are the same reminder: the due instant and the
    /// disabled flag say how a reminder is run, not which one it is.
    pub open spec fn same_content(self, other: EventView) -> bool {
        self.schedule == other.schedule && self.summary == other.summary && self.body
            == other.body
    }

    /// The event once its due instant has been computed afresh at `now`.
    pub open spec fn refreshed(self, now: Timestamp) -> EventView {
        EventView { upcoming: next_instant(self.schedule, now), ..self }
    }

    /// The event with its due instant filled in where it was missing: a due
    /// instant that is known stays, one that is not is computed at `now`.
    pub open spec fn settled(self, now: Timestamp) -> EventView {
        if self.upcoming is Some {
            self
        } else {
            self.refreshed(now)
        }
    }

    /// Whether a check at `now` sends the event's notification: the event is
    /// enabled, and its due instant is known and has come.
    pub open spec fn fires(self, now: Timestamp) -> bool {
        !self.disabled && (self.upcoming matches Some(due) && now.reached(due))
    }

    /// The event after a check at `now`. A disabled event is left alone. An
    /// enabled one gets a due instant if it had none; where it fires, its due
    /// instant moves on to the first occurrence after `now`.
    pub open spec fn checked(self, now: Timestamp) -> EventView {
        if self.disabled {
            self
        } else if self.fires(now) {
            self.refreshed(now)
        } else {
            self.settled(now)
        }
    }

    /// The notification that the event asks for.
    pub open spec fn notice(self) -> NoticeView {
        NoticeView { summary: self.summary, body: self.body }
    }

    /// The four lines that show an event.
    pub open spec fn text(self) -> Seq<char> {
        "Schedule: "@ + self.schedule + "\nSummary: "@ + self.summary + "\nBody: "@ + self.body
            + "\nDisabled: "@ + bool_text(self.disabled)
    }
}

impl Event {
    #[verifier::type_invariant]
    spec fn well_formed(&self) -> bool {
        cron_accepts(self.schedule@)
    }

    /// Creates an event that is not due yet, or fails with `ParseSchedError`
    /// when `schedule` is no cron expression.
    pub fn new(schedule: &str, summary: &str, body: &str, disabled: bool) -> (made: Result<
        Event,
        RecollectError,
    >)
        ensures
            cron_accepts(schedule@) ==> (made matches Ok(event) && event@ == (EventView {
                schedule: schedule@,
                summary: summary@,
                body: body@,
                disabled,
                upcoming: None,
            })),
            !cron_accepts(schedule@) ==> (made matches Err(RecollectError::ParseSchedError(text))
                && text@ == schedule@),
    {
        Event::restore(schedule, summary, body, disabled, None)
    }

    /// Creates an event with a due instant that was computed earlier, or
    /// fails with `ParseSchedError` when `schedule` is no cron expression.
    pub fn restore(
        schedule: &str,
        summary: &str,
        body: &str,
        disabled: bool,
        upcoming: Option<Timestamp>,
    ) -> (made: Result<Event, RecollectError>)
        ensures
            cron_accepts(schedule@) ==> (made matches Ok(event) && event@ == (EventView {
                schedule: schedule@,
                summary: summary@,
                body: body@,
                disabled,
                upcoming,
            })),
            !cron_accepts(schedule@) ==> (made matches Err(RecollectError::ParseSchedError(text))
                && text@ == schedule@),
    {
        match parse_schedule(schedule) {
            Ok(_) => Ok(
                Event {
                    schedule: schedule.to_owned(),
                    summary: summary.to_owned(),
                    body: body.to_owned(),
                    disabled,
                    upcoming,
                },
            ),
            Err(_) => Err(RecollectError::ParseSchedError(schedule.to_owned())),
        }
    }

    /// The schedule, parsed.
    pub fn schedule(&self) -> (parsed: Schedule)
        ensures
            schedule_source(parsed) == self@.schedule,
            cron_accepts(self@.schedule),
    {
        proof {
            use_type_invariant(self);
        }
        parse_schedule(self.schedule.as_str()).unwrap()
    }

    /// The instant at which the notification is due: the one that is kept
    /// if there is one, even if it has passed; else the first occurrence
    /// after `now`, which is kept from then on. There is none when the
    /// schedule has run out.
    pub fn upcoming_at(&mut self, now: Timestamp) -> (due: Option<Timestamp>)
        ensures
            final(self)@ == old(self)@.settled(now),
            due == final(self)@.upcoming,
    {
        match self.upcoming {
            Some(due) => Some(due),
            None => self.update_upcoming_at(now),
        }
    }

    /// The instant at which the notification is due, as `upcoming_at` gives
    /// it; the system clock is read only where no due instant is kept.
    pub fn upcoming(&mut self) -> (due: Option<Timestamp>)
        ensures
            old(self)@.upcoming is Some ==> final(self)@ == old(self)@,
            old(self)@.upcoming is None ==> exists|now: Timestamp|
                final(self)@ == #[trigger] old(self)@.refreshed(now),
            due == final(self)@.upcoming,
    {
        match self.upcoming {
            Some(due) => Some(due),
            None => self.update_upcoming(),
        }
    }

    /// Computes the due instant afresh: the first occurrence after `now`, or
    /// none when the schedule has run out. Returns the new due instant.
    pub fn update_upcoming_at(&mut self, now: Timestamp) -> (next: Option<Timestamp>)
        ensures
            final(self)@ == old(self)@.refreshed(now),
            next == final(self)@.upcoming,
    {
        let schedule = self.schedule();
        let next = next_occurrence(&schedule, now);
        self.upcoming = next;
        next
    }

    /// Computes the due instant afresh from the system clock, as
    /// `update_upcoming_at` does from the instant it is given.
    pub fn update_upcoming(&mut self) -> (next: Option<Timestamp>)
        ensures
            exists|now: Timestamp| final(self)@ == #[trigger] old(self)@.refreshed(now),
            next == final(self)@.upcoming,
    {
        let now = Timestamp::now();
        self.update_upcoming_at(now)
    }

    /// The next `n` occurrences of the schedule after `now`.
    pub fn upcoming_timeline_at(&self, now: Timestamp, n: usize) -> (times: Vec<Timestamp>)
        ensures
            times@ == occurrences(self@.schedule, now, n as nat),
    {
        let schedule = self.schedule();
        timeline(&schedule, now, n)
    }

    /// The next `n` occurrences of the schedule after the instant that the
    /// system clock shows.
    pub fn upcoming_timeline(&self, n: usize) -> (times: Vec<Timestamp>)
        ensures
            exists|now: Timestamp| times@ == #[trigger] occurrences(self@.schedule, now, n as nat),
    {
        let now = Timestamp::now();
        self.upcoming_timeline_at(now, n)
    }

    /// Checks the event at `now`, as the daemon does on every tick, and says
    /// whether its notification is to be sent.
    pub fn check_at(&mut self, now: Timestamp) -> (fired: bool)
        ensures
            fired == old(self)@.fires(now),
            final(self)@ == old(self)@.checked(now),
    {
        if self.disabled {
            return false;
        }
        match self.upcoming_at(now) {
            Some(due) => {
                if now.has_reached(&due) {
                    self.update_upcoming_at(now);
                    true
                } else {
                    false
                }
            },
            None => false,
        }
    }

    /// The notification to be sent.
    pub fn notification(&self) -> (notice: Notice)
        ensures
            notice@ == self@.notice(),
    {
        Notice { summary: self.summary.clone(), body: self.body.clone() }
    }

    /// Replaces the schedule by `schedule` if that is a cron expression, and
    /// forgets the due instant, which was computed for the old schedule. Fails
    /// with `ParseSchedError`, and changes nothing, if it is not.
    pub fn update_schedule(&mut self, schedule: &str) -> (updated: Result<(), RecollectError>)
        ensures
            cron_accepts(schedule@) ==> updated is Ok && final(self)@ == (EventView {
                schedule: schedule@,
                upcoming: None,
                ..old(self)@
            }),
            !cron_accepts(schedule@) ==> (updated matches Err(
                RecollectError::ParseSchedError(text),
            ) && text@ == schedule@) && final(self)@ == old(self)@,
    {
        match parse_schedule(schedule) {
            Ok(_) => {
                self.schedule = schedule.to_owned();
                self.upcoming = None;
                Ok(())
            },
            Err(_) => Err(RecollectError::ParseSchedError(schedule.to_owned())),
        }
    }

    /// The schedule and the summary of the event.
    pub fn summary(&self) -> (line: Summary<'_>)
        ensures
            line@ == (SummaryView { schedule: self@.schedule, summary: self@.summary }),
    {
        Summary { schedule: self.schedule.as_str(), summary: self.summary.as_str() }
    }

    /// The event as four lines of text.
    pub fn to_text(&self) -> (lines: String)
        ensures
            lines@ == self@.text(),
    {
        let mut lines = String::from_str("Schedule: ");
        lines.append(self.schedule.as_str());
        lines.append("\nSummary: ");
        lines.append(self.summary.as_str());
        lines.append("\nBody: ");
        lines.append(self.body.as_str());
        lines.append("\nDisabled: ");
        if self.disabled {
            lines.append("true");
        } else {
            lines.append("false");
        }
        lines
    }

    /// The cron expression of the schedule.
    pub fn schedule_text(&self) -> (text: &str)
        ensures
            text@ == self@.schedule,
            cron_accepts(self@.schedule),
    {
        proof {
            use_type_invariant(self);
        }
        self.schedule.as_str()
    }

    /// The summary text.
    pub fn summary_text(&self) -> (text: &str)
        ensures
            text@ == self@.summary,
    {
        self.summary.as_str()
    }

    /// The body text.
    pub fn body_text(&self) -> (text: &str)
        ensures
            text@ == self@.body,
    {
        self.body.as_str()
    }

    /// Whether the event is disabled.
    pub fn is_disabled(&self) -> (disabled: bool)
        ensures
            disabled == self@.disabled,
    {
        self.disabled
    }

    /// The due instant that is kept, if any. Nothing is computed.
    pub fn due(&self) -> (due: Option<Timestamp>)
        ensures
            due == self@.upcoming,
    {
        self.upcoming
    }

    /// Replaces the summary text.
    pub fn set_summary(&mut self, summary: &str)
        ensures
            final(self)@ == (EventView { summary: summary@, ..old(self)@ }),
    {
        proof {
            use_type_invariant(&*self);
        }
        self.summary = summary.to_owned();
    }

    /// Replaces the body text.
    pub fn set_body(&mut self, body: &str)
        ensures
            final(self)@ == (EventView { body: body@, ..old(self)@ }),
    {
        proof {
            use_type_invariant(&*self);
        }
        self.body = body.to_owned();
    }

    /// Disables or enables the event.
    pub fn set_disabled(&mut self, disabled: bool)
        ensures
            final(self)@ == (EventView { disabled, ..old(self)@ }),
    {
        proof {
            use_type_invariant(&*self);
        }
        self.disabled = disabled;
    }

    /// Replaces the due instant that is kept.
    pub fn set_due(&mut self, due: Option<Timestamp>)
        ensures
            final(self)@ == (EventView { upcoming: due, ..old(self)@ }),
    {
        proof {
            use_type_invariant(&*self);
        }
        self.upcoming = due;
    }
}

impl PartialEq for Event {
    /// Whether the two events are the same reminder.
    fn eq(&self, other: &Self) -> (same: bool) {
        self.schedule == other.schedule && self.summary == other.summary && self.body
            == other.body
    }
}

impl vstd::std_specs::cmp::PartialEqSpecImpl for Event {
    open spec fn obeys_eq_spec() -> bool {
        true
    }

    open spec fn eq_spec(&self, other: &Self) -> bool {
        self@.same_content(other@)
    }
}

/// The schedule and the summary of an event, borrowed from it: the line by
/// which an event is picked from a list.
#[derive(Debug)]
pub struct Summary<'a> {
    schedule: &'a str,
    summary: &'a str,
}

/// What a summary holds.
pub struct SummaryView {
    pub schedule: Seq<char>,
    pub summary: Seq<char>,
}

impl View for Summary<'_> {
    type V = SummaryView;

    closed spec fn view(&self) -> SummaryView {
        SummaryView { schedule: self.schedule@, summary: self.summary@ }
    }
}

impl SummaryView {
    /// The line that shows a summary.
    pub open spec fn text(self) -> Seq<char> {
        "Schedule: "@ + self.schedule + ", Summary: "@ + self.summary
    }
}

impl Summary<'_> {
    /// The summary as one line of text.
    pub fn to_text(&self) -> (line: String)
        ensures
            line@ == self@.text(),
    {
        let mut line = String::from_str("Schedule: ");
        line.append(self.schedule);
        line.append(", Summary: ");
        line.append(self.summary);
        line
    }
}

/// The two texts of a desktop notification.
#[derive(Debug)]
pub struct Notice {
    pub summary: String,
    pub body: String,
}

/// What a notice holds.
pub struct NoticeView {
    pub summary: Seq<char>,
    pub body: Seq<char>,
}

impl View for Notice {
    type V = NoticeView;

    open spec fn view(&self) -> NoticeView {
        NoticeView { summary: self.summary@, body: self.body@ }
    }
}

/// What the notices of a list hold, in order.
pub open spec fn notice_views(notices: Seq<Notice>) -> Seq<NoticeView> {
    Seq::new(notices.len(), |i: int| notices[i]@)
}

} // verus!
