//! The history of a session as a sequence of events: which sequences a
//! session can reach, and how much working and resting time one holds.

use crate::event::{accepts, Event, Status};
use crate::moment::{max_span, Moment};
use vstd::prelude::*;

verus! {

/// Whether the event at `i` was rightly accepted after the one before it.
pub open spec fn legal_step(events: Seq<Event>, i: int) -> bool {
    accepts(events[i - 1], events[i])
}

/// Whether every event of `events` happened at a moment of the calendar.
pub open spec fn moments_valid(events: Seq<Event>) -> bool {
    forall|i: int| 0 <= i < events.len() ==> (#[trigger] events[i]).moment().wf()
}

/// Whether `events` can be the history of a session: it begins with the
/// start, each later event was accepted after the one before it, and each
/// happened at a moment of the calendar.
pub open spec fn valid_history(events: Seq<Event>) -> bool {
    &&& events.len() > 0
    &&& events[0] is Create
    &&& forall|i: int| 0 < i < events.len() ==> #[trigger] legal_step(events, i)
    &&& moments_valid(events)
}

/// The moment a history starts at.
pub open spec fn opening_time(events: Seq<Event>) -> Moment {
    events[0].moment()
}

/// The moment a history ends at, if its last event is the end.
pub open spec fn closing_time(events: Seq<Event>) -> Option<Moment> {
    match events.last() {
        Event::Close(moment) => Some(moment),
        _ => None,
    }
}

/// The history after `incoming` arrived: with it where it was accepted,
/// unchanged where it was not.
pub open spec fn next_history(events: Seq<Event>, incoming: Event) -> Seq<Event> {
    if accepts(events.last(), incoming) {
        events.push(incoming)
    } else {
        events
    }
}

/// The time spent in `status` over a sequence of events: the sum of the
/// spans between neighbours whose earlier event is followed by `status`.
pub open spec fn time_in(events: Seq<Event>, status: Status) -> int
    decreases events.len(),
{
    if events.len() < 2 {
        0
    } else {
        let previous = events[events.len() - 2];
        let span = if previous.status_after() == status {
            events.last().moment()@ - previous.moment()@
        } else {
            0
        };
        time_in(events.drop_last(), status) + span
    }
}

/// The events that a report at `now` accounts for: those of the history,
/// closed at `now` where the history is not closed itself.
pub open spec fn effective(events: Seq<Event>, now: Moment) -> Seq<Event> {
    if closing_time(events) is None {
        events.push(Event::Close(now))
    } else {
        events
    }
}

/// The nanoseconds from the start of a history to its end, or to `now`
/// where it has none.
pub open spec fn elapsed(events: Seq<Event>, now: Moment) -> int {
    match closing_time(events) {
        Some(end) => end@ - opening_time(events)@,
        None => now@ - opening_time(events)@,
    }
}

/// One more event adds the span since the last one to the time of the
/// status that the last one is followed by.
pub proof fn lemma_time_in_push(events: Seq<Event>, event: Event, status: Status)
    requires
        events.len() > 0,
    ensures
        time_in(events.push(event), status) == time_in(events, status) + if events.last()
            .status_after() == status {
            event.moment()@ - events.last().moment()@
        } else {
            0
        },
{
    assert(events.push(event).drop_last() =~= events);
}

/// Working time and resting time together span the events from the first
/// to the last.
pub proof fn lemma_times_make_span(events: Seq<Event>)
    requires
        events.len() > 0,
    ensures
        time_in(events, Status::Working) + time_in(events, Status::Resting)
            == events.last().moment()@ - events[0].moment()@,
    decreases events.len(),
{
    if events.len() >= 2 {
        lemma_times_make_span(events.drop_last());
    }
}

/// In a valid history no pause follows a pause and no resumption follows
/// anything but a pause; the start comes first and only first, and nothing
/// follows the end.
pub proof fn lemma_history_alternates(events: Seq<Event>, i: int)
    requires
        valid_history(events),
        0 < i < events.len(),
    ensures
        events[i] is Lock ==> events[i - 1] is Create || events[i - 1] is Unlock,
        events[i] is Unlock ==> events[i - 1] is Lock,
        !(events[i] is Create),
        !(events[i - 1] is Close),
{
    assert(legal_step(events, i));
}

/// An event that asks for the state the history is in already is dropped: a
/// pause while the worker rests, a resumption while the worker works, and a
/// start at any time.
pub proof fn lemma_redundant_event_is_dropped(events: Seq<Event>, incoming: Event)
    requires
        incoming is Create || (incoming is Lock && events.last().status_after() == Status::Resting)
            || (incoming is Unlock && events.last().status_after() == Status::Working),
    ensures
        next_history(events, incoming) == events,
{
}

/// A history that has ended takes no further event.
pub proof fn lemma_closed_history_is_final(events: Seq<Event>, incoming: Event)
    requires
        closing_time(events) is Some,
    ensures
        next_history(events, incoming) == events,
{
}

/// Whatever arrives, a valid history stays valid and keeps its start.
pub proof fn lemma_next_history_is_valid(events: Seq<Event>, incoming: Event)
    requires
        valid_history(events),
        incoming.moment().wf(),
    ensures
        valid_history(next_history(events, incoming)),
        opening_time(next_history(events, incoming)) == opening_time(events),
{
    let next = next_history(events, incoming);
    assert forall|i: int| 0 < i < next.len() implies #[trigger] legal_step(next, i) by {
        if i < events.len() {
            assert(legal_step(events, i));
        }
    }
}

/// Each span between two events is at most the longest span between two
/// moments, and so is the time in a status at most as many such spans as
/// the events have neighbours.
pub proof fn lemma_time_in_is_bounded(events: Seq<Event>, status: Status)
    requires
        events.len() > 0,
        moments_valid(events),
    ensures
        -((events.len() - 1) * max_span()) <= time_in(events, status) <= (events.len() - 1)
            * max_span(),
    decreases events.len(),
{
    if events.len() >= 2 {
        let n = events.len() as int;
        let earlier = events.drop_last();
        assert forall|i: int| 0 <= i < earlier.len() implies (#[trigger] earlier[i]).moment()
            .wf() by {
            assert(earlier[i] == events[i]);
        }
        lemma_time_in_is_bounded(earlier, status);
        events[n - 2].moment().lemma_range();
        events[n - 1].moment().lemma_range();
        let span = max_span();
        assert((n - 1) * span == (n - 2) * span + span) by (nonlinear_arith);
    }
}

/// Whatever the history and the moment of the report, the working time and
/// the resting time add up to the time that has passed.
pub proof fn lemma_working_and_resting_make_total(events: Seq<Event>, now: Moment)
    requires
        valid_history(events),
    ensures
        time_in(effective(events, now), Status::Working) + time_in(
            effective(events, now),
            Status::Resting,
        ) == elapsed(events, now),
{
    lemma_times_make_span(effective(events, now));
}

/// A history that has only started is running; whenever it is asked, it has
/// not rested and has worked ever since its start.
pub proof fn lemma_fresh_history_has_not_rested(start: Moment, now: Moment)
    ensures
        closing_time(seq![Event::Create(start)]) is None,
        time_in(effective(seq![Event::Create(start)], now), Status::Resting) == 0,
        time_in(effective(seq![Event::Create(start)], now), Status::Working) == now@ - start@,
{
    let events = seq![Event::Create(start)];
    lemma_time_in_push(events, Event::Close(now), Status::Resting);
    lemma_time_in_push(events, Event::Close(now), Status::Working);
}

} // verus!
