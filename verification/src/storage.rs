//! The stored event list: the events in their order, and the file they live in.

use std::path::PathBuf;

use vstd::prelude::*;

use crate::error::RecollectError;
use crate::event::event_views;
use crate::event::Event;
use crate::event::EventView;
use crate::schedule::cron_accepts;
use crate::time::Timestamp;

verus! {

/// `std::path::PathBuf`: where a list is kept. A path is carried, never
/// looked into.
#[verifier::external_type_specification]
#[verifier::external_body]
pub struct ExPathBuf(PathBuf);

/// One event as the data file holds it: plain values, nothing checked.
#[derive(Debug)]
pub struct Record {
    pub schedule: String,
    pub summary: String,
    pub body: String,
    pub disabled: bool,
    pub upcoming: Option<Timestamp>,
}

impl View for Record {
    type V = EventView;

    open spec fn view(&self) -> EventView {
        EventView {
            schedule: self.schedule@,
            summary: self.summary@,
            body: self.body@,
            disabled: self.disabled,
            upcoming: self.upcoming,
        }
    }
}

/// What the records of a list hold, in order.
pub open spec fn record_views(records: Seq<Record>) -> Seq<EventView> {
    Seq::new(records.len(), |i: int| records[i]@)
}

/// Whether every record up to `end` has a cron expression for its schedule.
pub open spec fn all_accepted(records: Seq<EventView>, end: int) -> bool {
    forall|i: int| 0 <= i < end ==> cron_accepts(#[trigger] records[i].schedule)
}

/// What loading a list of records gives: the same list as events, unless a
/// record has a schedule that is no cron expression. Then it is the schedule
/// of the first such record.
pub open spec fn loaded(records: Seq<EventView>) -> Result<Seq<EventView>, Seq<char>> {
    if all_accepted(records, records.len() as int) {
        Ok(records)
    } else {
        let first = choose|i: int|
            0 <= i < records.len() && !cron_accepts(#[trigger] records[i].schedule)
                && all_accepted(records, i);
        Err(records[first].schedule)
    }
}

impl Event {
    /// The event as a record.
    pub fn to_record(&self) -> (record: Record)
        ensures
            record@ == self@,
            cron_accepts(record@.schedule),
    {
        Record {
            schedule: self.schedule_text().to_owned(),
            summary: self.summary_text().to_owned(),
            body: self.body_text().to_owned(),
            disabled: self.is_disabled(),
            upcoming: self.due(),
        }
    }

    /// The event that a record describes, or `ParseSchedError` when its
    /// schedule is no cron expression.
    pub fn from_record(record: &Record) -> (made: Result<Event, RecollectError>)
        ensures
            cron_accepts(record@.schedule) ==> (made matches Ok(event) && event@ == record@),
            !cron_accepts(record@.schedule) ==> (made matches Err(
                RecollectError::ParseSchedError(text),
            ) && text@ == record@.schedule),
    {
        Event::restore(
            record.schedule.as_str(),
            record.summary.as_str(),
            record.body.as_str(),
            record.disabled,
            record.upcoming,
        )
    }
}

/// Turns the records of a data file into events, in their order. Fails with
/// `ParseSchedError` at the first record whose schedule is no cron expression.
pub fn load_records(records: &Vec<Record>) -> (made: Result<Vec<Event>, RecollectError>)
    ensures
        match loaded(record_views(records@)) {
            Ok(contents) => made matches Ok(events) && event_views(events@) == contents,
            Err(schedule) => made matches Err(RecollectError::ParseSchedError(text)) && text@
                == schedule,
        },
{
    let ghost all = record_views(records@);
    let mut events: Vec<Event> = Vec::new();
    let mut i: usize = 0;
    while i < records.len()
        invariant
            i <= records.len(),
            all == record_views(records@),
            events.len() == i,
            all_accepted(all, i as int),
            forall|k: int| 0 <= k < i ==> (#[trigger] events[k])@ == all[k],
        decreases records.len() - i,
    {
        match Event::from_record(&records[i]) {
            Ok(event) => {
                events.push(event);
            },
            Err(error) => {
                proof {
                    first_rejected_decides(all, i as int);
                }
                return Err(error);
            },
        }
        i = i + 1;
    }
    proof {
        assert(event_views(events@) =~= all);
    }
    Ok(events)
}

/// Turns events into the records to write, in their order.
pub fn to_records(events: &Vec<Event>) -> (records: Vec<Record>)
    ensures
        record_views(records@) == event_views(events@),
        all_accepted(record_views(records@), records.len() as int),
{
    let mut records: Vec<Record> = Vec::new();
    let mut i: usize = 0;
    while i < events.len()
        invariant
            i <= events.len(),
            records.len() == i,
            forall|k: int| 0 <= k < i ==> (#[trigger] records[k])@ == events[k]@,
            forall|k: int| 0 <= k < i ==> cron_accepts((#[trigger] records[k])@.schedule),
        decreases events.len() - i,
    {
        records.push(events[i].to_record());
        i = i + 1;
    }
    proof {
        assert(record_views(records@) =~= event_views(events@));
    }
    records
}

/// Where a list has a record that is not accepted after `at` accepted ones,
/// loading fails with the schedule of that record.
proof fn first_rejected_decides(records: Seq<EventView>, at: int)
    requires
        0 <= at < records.len(),
        all_accepted(records, at),
        !cron_accepts(records[at].schedule),
    ensures
        loaded(records) == Err::<Seq<EventView>, Seq<char>>(records[at].schedule),
{
    let first = choose|i: int|
        0 <= i < records.len() && !cron_accepts(#[trigger] records[i].schedule) && all_accepted(
            records,
            i,
        );
    if first < at {
        assert(cron_accepts(records[first].schedule));
    } else if at < first {
        assert(cron_accepts(records[at].schedule));
    }
}

/// Writing a list out and loading it again gives the same list: each event
/// with its schedule, summary, body, disabled flag and due instant, in the
/// same order. The records that `to_records` writes are all accepted.
pub proof fn records_load_back(contents: Seq<EventView>)
    ensures
        all_accepted(contents, contents.len() as int) ==> loaded(contents) == Ok::<
            Seq<EventView>,
            Seq<char>,
        >(contents),
{
}

/// An ordered list of events that is kept at a path.
pub trait Storage: PartialEq + Sized {
    /// What the events hold, in their order.
    spec fn contents(&self) -> Seq<EventView>;

    /// Where the list is kept.
    spec fn location(&self) -> PathBuf;

    /// An empty list that is kept at `path`.
    fn new(path: PathBuf) -> (storage: Self)
        ensures
            storage.contents() == Seq::<EventView>::empty(),
            storage.location() == path,
    ;

    /// The events, to read and to change.
    fn events(&mut self) -> (events: &mut Vec<Event>)
        ensures
            event_views(events@) == old(self).contents(),
            final(self).contents() == event_views(final(events)@),
            final(self).location() == old(self).location(),
    ;

    /// The path at which the list is kept.
    fn path(&self) -> (path: &PathBuf)
        ensures
            *path == self.location(),
    ;

    /// Gives up the storage for the events it held.
    fn into_inner(self) -> (events: Vec<Event>)
        ensures
            event_views(events@) == self.contents(),
    ;
}

/// An event list that is kept in a JSON file.
#[derive(Debug)]
pub struct JsonStorage {
    events: Vec<Event>,
    path: PathBuf,
}

/// Whether two lists hold the same reminders in the same order.
pub open spec fn same_reminders(left: Seq<EventView>, right: Seq<EventView>) -> bool {
    left.len() == right.len() && forall|i: int|
        0 <= i < left.len() ==> (#[trigger] left[i]).same_content(right[i])
}

impl Storage for JsonStorage {
    closed spec fn contents(&self) -> Seq<EventView> {
        event_views(self.events@)
    }

    closed spec fn location(&self) -> PathBuf {
        self.path
    }

    fn new(path: PathBuf) -> (storage: Self) {
        JsonStorage { events: Vec::new(), path }
    }

    fn events(&mut self) -> (events: &mut Vec<Event>) {
        &mut self.events
    }

    fn path(&self) -> (path: &PathBuf) {
        &self.path
    }

    fn into_inner(self) -> (events: Vec<Event>) {
        self.events
    }
}

impl JsonStorage {
    /// The list that the records of a data file describe, kept at `path`.
    /// Fails with `ParseSchedError` at the first record whose schedule is no
    /// cron expression.
    pub fn from_records(path: PathBuf, records: &Vec<Record>) -> (made: Result<
        JsonStorage,
        RecollectError,
    >)
        ensures
            match loaded(record_views(records@)) {
                Ok(contents) => made matches Ok(storage) && storage.contents() == contents
                    && storage.location() == path,
                Err(schedule) => made matches Err(RecollectError::ParseSchedError(text)) && text@
                    == schedule,
            },
    {
        match load_records(records) {
            Ok(events) => Ok(JsonStorage { events, path }),
            Err(error) => Err(error),
        }
    }

    /// The records to write to the data file: one for each event, in the
    /// order of the list. Each of them can be loaded again.
    pub fn records(&self) -> (records: Vec<Record>)
        ensures
            record_views(records@) == self.contents(),
            all_accepted(record_views(records@), records.len() as int),
    {
        to_records(&self.events)
    }
}

impl PartialEq for JsonStorage {
    /// Whether the two lists hold the same reminders in the same order,
    /// wherever they are kept.
    fn eq(&self, other: &Self) -> (same: bool) {
        if self.events.len() != other.events.len() {
            return false;
        }
        let mut i: usize = 0;
        while i < self.events.len()
            invariant
                i <= self.events.len(),
                self.events.len() == other.events.len(),
                forall|k: int|
                    0 <= k < i ==> (#[trigger] self.events[k])@.same_content(other.events[k]@),
            decreases self.events.len() - i,
        {
            if self.events[i] != other.events[i] {
                proof {
                    assert(!self.contents()[i as int].same_content(other.contents()[i as int]));
                }
                return false;
            }
            i = i + 1;
        }
        proof {
            assert forall|k: int| 0 <= k < self.contents().len() implies (
            #[trigger] self.contents()[k]).same_content(other.contents()[k]) by {
                assert(self.events[k]@.same_content(other.events[k]@));
            }
        }
        true
    }
}

impl vstd::std_specs::cmp::PartialEqSpecImpl for JsonStorage {
    open spec fn obeys_eq_spec() -> bool {
        true
    }

    open spec fn eq_spec(&self, other: &Self) -> bool {
        same_reminders(self.contents(), other.contents())
    }
}

} // verus!
