//! Changes to the event list at positions that were picked from it.

use vstd::prelude::*;

use crate::event::event_views;
use crate::event::Event;
use crate::event::EventView;

verus! {

/// Whether position `i` is among the picked ones.
pub open spec fn picked(selected: Seq<usize>, i: int) -> bool {
    exists|k: int| 0 <= k < selected.len() && #[trigger] selected[k] == i
}

/// The events from position `from` on that were not picked, in their order.
pub open spec fn unpicked_from(events: Seq<EventView>, selected: Seq<usize>, from: int) -> Seq<
    EventView,
>
    decreases events.len() - from,
{
    if from < 0 || from >= events.len() {
        Seq::empty()
    } else if picked(selected, from) {
        unpicked_from(events, selected, from + 1)
    } else {
        seq![events[from]] + unpicked_from(events, selected, from + 1)
    }
}

/// The list with every picked event disabled.
pub open spec fn disabled_where_picked(events: Seq<EventView>, selected: Seq<usize>) -> Seq<
    EventView,
> {
    Seq::new(
        events.len(),
        |i: int|
            if picked(selected, i) {
                EventView { disabled: true, ..events[i] }
            } else {
                events[i]
            },
    )
}

/// Decides whether position `i` is among the picked ones.
pub fn is_picked(selected: &Vec<usize>, i: usize) -> (found: bool)
    ensures
        found == picked(selected@, i as int),
{
    let mut k: usize = 0;
    while k < selected.len()
        invariant
            k <= selected.len(),
            forall|j: int| 0 <= j < k ==> #[trigger] selected[j] != i,
        decreases selected.len() - k,
    {
        if selected[k] == i {
            return true;
        }
        k = k + 1;
    }
    false
}

/// Removes the events at the picked positions; the others keep their order.
/// A position may be picked twice, and one past the end of the list picks
/// nothing.
pub fn remove_selected(events: &mut Vec<Event>, selected: &Vec<usize>)
    ensures
        event_views(final(events)@) == unpicked_from(event_views(old(events)@), selected@, 0),
{
    let ghost before = event_views(events@);
    let mut i: usize = events.len();
    while i > 0
        invariant
            i <= before.len(),
            events.len() >= i,
            event_views(events@) == before.take(i as int) + unpicked_from(
                before,
                selected@,
                i as int,
            ),
        decreases i,
    {
        i = i - 1;
        let ghost rest = unpicked_from(before, selected@, i + 1);
        let ghost held = events@;
        if is_picked(selected, i) {
            events.remove(i);
            proof {
                let whole = event_views(held);
                assert(whole == before.take(i + 1) + rest);
                assert(event_views(events@) =~= whole.remove(i as int));
                assert(whole.remove(i as int) =~= before.take(i as int) + rest);
            }
        } else {
            proof {
                assert(before.take(i + 1) =~= before.take(i as int) + seq![before[i as int]]);
                assert(event_views(events@) =~= before.take(i as int) + (seq![before[i as int]]
                    + rest));
            }
        }
    }
    proof {
        assert(event_views(events@) =~= unpicked_from(before, selected@, 0));
    }
}

/// Disables the events at the picked positions and leaves the others as
/// they are. A position past the end of the list picks nothing.
pub fn disable_selected(events: &mut Vec<Event>, selected: &Vec<usize>)
    ensures
        event_views(final(events)@) == disabled_where_picked(
            event_views(old(events)@),
            selected@,
        ),
{
    let ghost before = event_views(events@);
    let mut i: usize = 0;
    while i < events.len()
        invariant
            i <= events.len(),
            events.len() == before.len(),
            forall|k: int|
                0 <= k < i ==> (#[trigger] events[k])@ == disabled_where_picked(
                    before,
                    selected@,
                )[k],
            forall|k: int| i <= k < events.len() ==> (#[trigger] events[k])@ == before[k],
        decreases events.len() - i,
    {
        if is_picked(selected, i) {
            events[i].set_disabled(true);
        }
        i = i + 1;
    }
    proof {
        assert(event_views(events@) =~= disabled_where_picked(before, selected@));
    }
}

/// What a removal leaves is never longer than the list, and where no
/// position of the list is picked it is the whole list.
pub proof fn removal_keeps_the_unpicked(events: Seq<EventView>, selected: Seq<usize>, from: int)
    requires
        0 <= from <= events.len(),
    ensures
        unpicked_from(events, selected, from).len() <= events.len() - from,
        (forall|i: int| from <= i < events.len() ==> !picked(selected, i)) ==> unpicked_from(
            events,
            selected,
            from,
        ) == events.skip(from),
    decreases events.len() - from,
{
    if from < events.len() {
        removal_keeps_the_unpicked(events, selected, from + 1);
        if forall|i: int| from <= i < events.len() ==> !picked(selected, i) {
            assert(!picked(selected, from));
            assert(events.skip(from) =~= seq![events[from]] + events.skip(from + 1));
        }
    } else {
        assert(events.skip(from) =~= Seq::<EventView>::empty());
    }
}

} // verus!
