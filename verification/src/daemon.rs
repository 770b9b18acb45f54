//! The decisions of the daemon: what a reload of the data file changes, and
//! which notifications a tick sends.

use vstd::prelude::*;

use crate::error::RecollectError;
use crate::event::event_views;
use crate::event::notice_views;
use crate::event::Event;
use crate::event::EventView;
use crate::event::Notice;
use crate::event::NoticeView;
use crate::schedule::next_instant;
use crate::storage::same_reminders;
use crate::storage::Storage;
use crate::time::Timestamp;

verus! {

/// The list after every event was checked at `now`.
pub open spec fn checked_all(events: Seq<EventView>, now: Timestamp) -> Seq<EventView> {
    Seq::new(events.len(), |i: int| events[i].checked(now))
}

/// The notifications that a check at `now` sends, in the order of the list.
pub open spec fn notices_due(events: Seq<EventView>, now: Timestamp) -> Seq<NoticeView>
    decreases events.len(),
{
    if events.len() == 0 {
        Seq::empty()
    } else if events.last().fires(now) {
        notices_due(events.drop_last(), now).push(events.last().notice())
    } else {
        notices_due(events.drop_last(), now)
    }
}

/// What a check of the whole list gave.
#[derive(Debug)]
pub struct Sweep {
    /// The notifications to send, in the order of the list.
    pub notices: Vec<Notice>,
    /// Whether the due instant of any event is another than before.
    pub changed: bool,
}

/// Checks every event at `now`: returns the notifications to send, in the
/// order of the list, and moves the due instant of each event that fired on.
pub fn check_due(events: &mut Vec<Event>, now: Timestamp) -> (sweep: Sweep)
    ensures
        final(events)@.len() == old(events)@.len(),
        event_views(final(events)@) == checked_all(event_views(old(events)@), now),
        notice_views(sweep.notices@) == notices_due(event_views(old(events)@), now),
        sweep.changed == (event_views(final(events)@) != event_views(old(events)@)),
{
    let mut notices: Vec<Notice> = Vec::new();
    let mut changed = false;
    let ghost before = event_views(events@);
    let mut i: usize = 0;
    while i < events.len()
        invariant
            i <= events.len(),
            events.len() == before.len(),
            forall|k: int| 0 <= k < i ==> (#[trigger] events[k])@ == before[k].checked(now),
            forall|k: int| i <= k < events.len() ==> (#[trigger] events[k])@ == before[k],
            notice_views(notices@) == notices_due(before.take(i as int), now),
            changed == exists|k: int| 0 <= k < i && #[trigger] before[k].checked(now) != before[k],
        decreases events.len() - i,
    {
        let ghost sent = notice_views(notices@);
        let was_due = events[i].due();
        let fired = events[i].check_at(now);
        let is_due = events[i].due();
        if !same_instant(was_due, is_due) {
            changed = true;
        }
        proof {
            assert(before.take(i + 1).drop_last() == before.take(i as int));
            assert(before.take(i + 1).last() == before[i as int]);
        }
        if fired {
            let notice = events[i].notification();
            notices.push(notice);
            proof {
                assert(notice_views(notices@) == sent.push(before[i as int].notice()));
            }
        }
        i = i + 1;
    }
    proof {
        assert(before.take(i as int) == before);
        assert(event_views(events@) == checked_all(before, now));
        if changed {
            let k = choose|k: int| 0 <= k < i && #[trigger] before[k].checked(now) != before[k];
            assert(event_views(events@)[k] != before[k]);
        } else {
            assert(event_views(events@) =~= before);
        }
    }
    Sweep { notices, changed }
}

/// Decides whether two due instants are the same.
fn same_instant(left: Option<Timestamp>, right: Option<Timestamp>) -> (same: bool)
    ensures
        same == (left == right),
{
    match (left, right) {
        (Some(l), Some(r)) => l.secs == r.secs && l.nanos == r.nanos,
        (None, None) => true,
        _ => false,
    }
}

/// The due instant that the event at `i` of a reloaded list starts with: the
/// one that the event at `i` of the list in memory has, if that is the same
/// reminder; none if it is another one, or if the list in memory is shorter.
pub open spec fn carried_due(kept: Seq<EventView>, loaded: Seq<EventView>, i: int) -> Option<
    Timestamp,
> {
    if i < kept.len() && kept[i].same_content(loaded[i]) {
        kept[i].upcoming
    } else {
        None
    }
}

/// The list in memory after a reload: the events of the reloaded list, in
/// their order, with the due instants that the list in memory had for them.
pub open spec fn merged(kept: Seq<EventView>, loaded: Seq<EventView>) -> Seq<EventView> {
    Seq::new(
        loaded.len(),
        |i: int| EventView { upcoming: carried_due(kept, loaded, i), ..loaded[i] },
    )
}

/// Takes a reloaded list into the list in memory, and says whether that
/// changed the list in memory.
pub fn merge(events: &mut Vec<Event>, loaded: Vec<Event>) -> (changed: bool)
    ensures
        final(events)@.len() == loaded@.len(),
        event_views(final(events)@) == merged(event_views(old(events)@), event_views(loaded@)),
        changed == (event_views(final(events)@) != event_views(old(events)@)),
{
    let ghost kept = event_views(events@);
    let ghost fresh = event_views(loaded@);
    let mut loaded = loaded;
    let mut changed = loaded.len() != events.len();
    let mut i: usize = 0;
    while i < loaded.len()
        invariant
            i <= loaded.len(),
            loaded.len() == fresh.len(),
            kept == event_views(events@),
            forall|k: int| 0 <= k < i ==> (#[trigger] loaded[k])@ == merged(kept, fresh)[k],
            forall|k: int| i <= k < loaded.len() ==> (#[trigger] loaded[k])@ == fresh[k],
            changed == (fresh.len() != kept.len() || exists|k: int|
                0 <= k < i && k < kept.len() && #[trigger] merged(kept, fresh)[k] != kept[k]),
        decreases loaded.len() - i,
    {
        let mut due: Option<Timestamp> = None;
        if i < events.len() {
            if events[i] == loaded[i] {
                due = events[i].due();
                if events[i].is_disabled() != loaded[i].is_disabled() {
                    changed = true;
                }
            } else {
                changed = true;
            }
            proof {
                assert(kept[i as int] == events[i as int]@);
            }
        }
        loaded[i].set_due(due);
        proof {
            let at = i as int;
            assert(loaded[at]@ == merged(kept, fresh)[at]);
            if at < kept.len() {
                assert(merged(kept, fresh)[at] != kept[at] <==> !kept[at].same_content(fresh[at])
                    || kept[at].disabled != fresh[at].disabled);
            }
        }
        i = i + 1;
    }
    *events = loaded;
    proof {
        let now = event_views(events@);
        assert(now == merged(kept, fresh));
        if fresh.len() == kept.len() {
            if changed {
                let k = choose|k: int|
                    0 <= k < i && k < kept.len() && #[trigger] merged(kept, fresh)[k] != kept[k];
                assert(now[k] != kept[k]);
            } else {
                assert(now =~= kept);
            }
        }
    }
    changed
}

/// What reading the data file gave since the last tick.
#[derive(Debug)]
pub enum Poll {
    /// The file was not read.
    Skipped,
    /// The file was read and holds these events.
    Loaded(Vec<Event>),
    /// The file could not be read, or does not hold an event list.
    Failed(RecollectError),
}

/// What the daemon is to do after a tick.
#[derive(Debug)]
pub struct Outcome {
    /// The notifications to send, in the order of the list. A notification
    /// that cannot be delivered is not tried again.
    pub notices: Vec<Notice>,
    /// Whether the list in memory is to be written to the data file.
    pub persist: bool,
    /// Whether the daemon is to stop.
    pub stop: bool,
    /// The error of a failed reload, to be logged.
    pub warning: Option<RecollectError>,
}

impl Poll {
    /// The list in memory once the reload has been taken in: a reload that
    /// failed, or did not happen, leaves the list as it is.
    pub open spec fn absorbed(self, kept: Seq<EventView>) -> Seq<EventView> {
        match self {
            Poll::Loaded(events) => merged(kept, event_views(events@)),
            _ => kept,
        }
    }

    /// The error to log.
    pub open spec fn warning(self) -> Option<RecollectError> {
        match self {
            Poll::Failed(error) => Some(error),
            _ => None,
        }
    }
}

/// One tick of the daemon.
///
/// A tick that sees the shutdown request does nothing but ask for the list
/// to be written and for the daemon to stop. Any other tick takes in the
/// reload, then checks every event at `now`, and asks for the list to be
/// written if the tick changed it.
pub fn tick<S: Storage>(storage: &mut S, shutdown: bool, poll: Poll, now: Timestamp) -> (outcome:
    Outcome)
    ensures
        final(storage).location() == old(storage).location(),
        outcome.stop == shutdown,
        shutdown ==> {
            &&& final(storage).contents() == old(storage).contents()
            &&& outcome.notices@.len() == 0
            &&& outcome.persist
            &&& outcome.warning is None
        },
        !shutdown ==> {
            &&& final(storage).contents() == checked_all(
                poll.absorbed(old(storage).contents()),
                now,
            )
            &&& notice_views(outcome.notices@) == notices_due(
                poll.absorbed(old(storage).contents()),
                now,
            )
            &&& outcome.persist == (final(storage).contents() != old(storage).contents())
            &&& outcome.warning == poll.warning()
        },
{
    if shutdown {
        return Outcome { notices: Vec::new(), persist: true, stop: true, warning: None };
    }
    let ghost kept = storage.contents();
    let ghost taken = poll.absorbed(kept);
    let events = storage.events();
    let mut warning: Option<RecollectError> = None;
    let mut reloaded = false;
    match poll {
        Poll::Skipped => {},
        Poll::Loaded(loaded) => {
            reloaded = merge(events, loaded);
        },
        Poll::Failed(error) => {
            warning = Some(error);
        },
    }
    let sweep = check_due(events, now);
    proof {
        if reloaded {
            checks_keep_reload_visible(kept, taken, now);
        }
    }
    Outcome { notices: sweep.notices, persist: reloaded || sweep.changed, stop: false, warning }
}

/// A list that a reload changed stays changed when its events are checked:
/// a check moves due instants only, and a reload that changes nothing but due
/// instants changes nothing at all.
proof fn checks_keep_reload_visible(kept: Seq<EventView>, taken: Seq<EventView>, now: Timestamp)
    requires
        exists|loaded: Seq<EventView>| taken == #[trigger] merged(kept, loaded),
        taken != kept,
    ensures
        checked_all(taken, now) != kept,
{
    let loaded = choose|loaded: Seq<EventView>| taken == #[trigger] merged(kept, loaded);
    let after = checked_all(taken, now);
    if after == kept {
        assert forall|k: int| 0 <= k < kept.len() implies taken[k] == kept[k] by {
            assert(after[k] == taken[k].checked(now));
            assert(taken[k].same_content(kept[k]));
            assert(kept[k].same_content(loaded[k]));
        }
        assert(taken =~= kept);
    }
}

/// Catch-up. An enabled event whose due instant has come, however long
/// ago, fires at the next check, and fires once: the check moves the due
/// instant to the first occurrence after `now`, which lies strictly after
/// `now`, so that a second check at `now` sends nothing.
pub proof fn overdue_event_fires_once(event: EventView, due: Timestamp, now: Timestamp)
    requires
        !event.disabled,
        event.upcoming == Some(due),
        now.reached(due),
    ensures
        event.fires(now),
        notices_due(seq![event], now) == seq![event.notice()],
        event.checked(now).upcoming == next_instant(event.schedule, now),
        event.checked(now).upcoming matches Some(next) ==> now.before(next),
        !event.checked(now).fires(now),
        notices_due(seq![event.checked(now)], now) == Seq::<NoticeView>::empty(),
{
    let one = seq![event];
    assert(one.last() == event);
    assert(one.drop_last() == Seq::<EventView>::empty());
    assert(notices_due(one.drop_last(), now) == Seq::<NoticeView>::empty());
    assert(notices_due(one, now) == Seq::<NoticeView>::empty().push(event.notice()));
    let again = seq![event.checked(now)];
    assert(again.last() == event.checked(now));
    assert(again.drop_last() == Seq::<EventView>::empty());
    assert(notices_due(again.drop_last(), now) == Seq::<NoticeView>::empty());
}

/// An event that is not due yet is left as it is, and sends nothing.
pub proof fn event_ahead_waits(event: EventView, due: Timestamp, now: Timestamp)
    requires
        event.upcoming == Some(due),
        now.before(due),
    ensures
        !event.fires(now),
        event.checked(now) == event,
{
}

/// A disabled event never fires, however long it has been due, and a check
/// leaves it as it is.
pub proof fn disabled_event_never_fires(event: EventView, now: Timestamp)
    requires
        event.disabled,
    ensures
        !event.fires(now),
        event.checked(now) == event,
{
}

/// Whether `notice` is the notification of an enabled event of the list
/// whose due instant has come at `now`.
pub open spec fn sent_by(events: Seq<EventView>, now: Timestamp, notice: NoticeView) -> bool {
    exists|i: int|
        0 <= i < events.len() && !events[i].disabled && (#[trigger] events[i]).fires(now)
            && notice == events[i].notice()
}

/// Every notification that a check sends is that of an enabled event of the
/// list whose due instant has come, and a check sends at most one for each
/// event.
pub proof fn notices_come_from_enabled_events(events: Seq<EventView>, now: Timestamp)
    ensures
        notices_due(events, now).len() <= events.len(),
        forall|j: int|
            0 <= j < notices_due(events, now).len() ==> sent_by(
                events,
                now,
                #[trigger] notices_due(events, now)[j],
            ),
    decreases events.len(),
{
    if events.len() > 0 {
        let front = events.drop_last();
        notices_come_from_enabled_events(front, now);
        assert forall|j: int| 0 <= j < notices_due(events, now).len() implies sent_by(
            events,
            now,
            #[trigger] notices_due(events, now)[j],
        ) by {
            if j < notices_due(front, now).len() {
                assert(sent_by(front, now, notices_due(front, now)[j]));
                let i = choose|i: int|
                    0 <= i < front.len() && !front[i].disabled && (#[trigger] front[i]).fires(now)
                        && notices_due(front, now)[j] == front[i].notice();
                assert(events[i] == front[i]);
            } else {
                let i = events.len() - 1;
                assert(events[i] == events.last());
            }
        }
    }
}

/// A list in which no event fires sends nothing.
pub proof fn nothing_fires_nothing_sent(events: Seq<EventView>, now: Timestamp)
    requires
        forall|i: int| 0 <= i < events.len() ==> !(#[trigger] events[i]).fires(now),
    ensures
        notices_due(events, now) == Seq::<NoticeView>::empty(),
{
    notices_come_from_enabled_events(events, now);
    if notices_due(events, now).len() > 0 {
        assert(sent_by(events, now, notices_due(events, now)[0]));
    }
}

/// A list of disabled events sends nothing, and a check leaves it as it is.
pub proof fn disabled_list_sends_nothing(events: Seq<EventView>, now: Timestamp)
    requires
        forall|i: int| 0 <= i < events.len() ==> (#[trigger] events[i]).disabled,
    ensures
        notices_due(events, now) == Seq::<NoticeView>::empty(),
        checked_all(events, now) == events,
{
    nothing_fires_nothing_sent(events, now);
    assert(checked_all(events, now) =~= events);
}

/// A check that is repeated at the same instant sends nothing and changes
/// nothing: no occurrence is notified twice.
pub proof fn repeated_check_is_silent(events: Seq<EventView>, now: Timestamp)
    ensures
        notices_due(checked_all(events, now), now) == Seq::<NoticeView>::empty(),
        checked_all(checked_all(events, now), now) == checked_all(events, now),
{
    let once = checked_all(events, now);
    assert forall|i: int| 0 <= i < once.len() implies !(#[trigger] once[i]).fires(now) by {
        assert(once[i] == events[i].checked(now));
    }
    nothing_fires_nothing_sent(once, now);
    assert forall|i: int| 0 <= i < once.len() implies #[trigger] once[i].checked(now)
        == once[i] by {
        assert(once[i] == events[i].checked(now));
    }
    assert(checked_all(once, now) =~= once);
}

/// A reload that finds the same reminders in the same order leaves every
/// due instant as it was; a reload that finds the list as it is in memory
/// changes nothing.
pub proof fn reload_without_change_keeps_due(kept: Seq<EventView>, loaded: Seq<EventView>)
    requires
        same_reminders(kept, loaded),
    ensures
        merged(kept, loaded).len() == kept.len(),
        forall|i: int|
            0 <= i < kept.len() ==> (#[trigger] merged(kept, loaded)[i]).upcoming
                == kept[i].upcoming,
        merged(kept, kept) == kept,
{
    assert forall|i: int| 0 <= i < kept.len() implies (#[trigger] merged(
        kept,
        loaded,
    )[i]).upcoming == kept[i].upcoming by {
        assert(kept[i].same_content(loaded[i]));
    }
    assert(merged(kept, kept) =~= kept);
}

/// A reload forgets the due instant of every event that is new at its place
/// in the list or was edited: one whose schedule, summary or body is another
/// than that of the event at the same place in memory.
pub proof fn reload_resets_edited(kept: Seq<EventView>, loaded: Seq<EventView>, i: int)
    requires
        0 <= i < loaded.len(),
        i >= kept.len() || !kept[i].same_content(loaded[i]),
    ensures
        merged(kept, loaded)[i] == (EventView { upcoming: None, ..loaded[i] }),
{
}

/// A reload takes the reminders of the file, in the order of the file.
pub proof fn reload_takes_file_order(kept: Seq<EventView>, loaded: Seq<EventView>)
    ensures
        same_reminders(merged(kept, loaded), loaded),
        forall|i: int|
            0 <= i < loaded.len() ==> (#[trigger] merged(kept, loaded)[i]).disabled
                == loaded[i].disabled,
{
}

} // verus!
