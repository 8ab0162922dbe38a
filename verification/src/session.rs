//! Work sessions and the reports on them.

use crate::clock::Clock;
use crate::duration::Duration;
use crate::event::{is_delta, Event, Status};
use crate::history::{
    closing_time, effective, elapsed, lemma_next_history_is_valid, lemma_time_in_is_bounded,
    lemma_working_and_resting_make_total, next_history, opening_time, time_in, valid_history,
};
use crate::moment::{max_span, Moment};
use vstd::prelude::*;

verus! {

/// The account of a session's time at one moment.
#[derive(Clone, Copy, Debug, PartialEq, Eq)]
pub struct Report {
    /// When the session was opened.
    pub start: Option<Moment>,
    /// When the session ended, unless it is still running.
    pub end: Option<Moment>,
    /// The time from the start to the end, or to the moment of the report.
    pub total: Duration,
    /// The part of that time that was spent working.
    pub working: Duration,
    /// The part of that time that was spent resting.
    pub resting: Duration,
}

/// One work period: its start, its end once it has one, and every event
/// that it accepted, in the order they came.
#[derive(Debug)]
pub struct Session {
    start: Moment,
    end: Option<Moment>,
    events: Vec<Event>,
}

/// The report on a history at `now`.
pub open spec fn report_of(events: Seq<Event>, now: Moment) -> Report {
    Report {
        start: Some(opening_time(events)),
        end: closing_time(events),
        total: Duration::of(elapsed(events, now)),
        working: Duration::of(time_in(effective(events, now), Status::Working)),
        resting: Duration::of(time_in(effective(events, now), Status::Resting)),
    }
}

/// Whether `deltas` holds, in order, the span between each event of
/// `events` and the next.
spec fn are_deltas_of(deltas: Seq<(Status, Duration)>, events: Seq<Event>) -> bool {
    &&& events.len() == deltas.len() + 1
    &&& forall|i: int|
        0 <= i < deltas.len() ==> is_delta(#[trigger] deltas[i], events[i], events[i + 1])
}

/// A session that has only started is running and, whenever it is asked,
/// reports no rest.
pub proof fn lemma_fresh_session_has_not_rested(start: Moment, now: Moment)
    ensures
        report_of(seq![Event::Create(start)], now).end is None,
        report_of(seq![Event::Create(start)], now).resting@ == 0,
{
    crate::history::lemma_fresh_history_has_not_rested(start, now);
    Duration::lemma_of_is_exact(0);
}

/// The working time and the resting time of a report add up to its total
/// time, for every history that a session can hold and every moment.
pub proof fn lemma_report_adds_up(events: Seq<Event>, now: Moment)
    requires
        valid_history(events),
        events.len() <= usize::MAX,
        now.wf(),
    ensures
        report_of(events, now).working@ + report_of(events, now).resting@ == report_of(
            events,
            now,
        ).total@,
{
    let counted = effective(events, now);
    assert forall|i: int| 0 <= i < counted.len() implies (#[trigger] counted[i]).moment().wf() by {
        if i < events.len() {
            assert(events[i].moment().wf());
        }
    }
    lemma_time_in_is_bounded(counted, Status::Working);
    lemma_time_in_is_bounded(counted, Status::Resting);
    lemma_working_and_resting_make_total(events, now);
    let span = max_span();
    let n = counted.len() as int;
    assert((n - 1) * span <= 0x1_0000_0000_0000_0000 * 0x1_0000_0000_0000_0000_0000)
        by (nonlinear_arith)
        requires
            1 <= n <= 0x1_0000_0000_0000_0000,
            0 <= span <= 0x1_0000_0000_0000_0000_0000,
    ;
    Duration::lemma_of_is_exact(time_in(counted, Status::Working));
    Duration::lemma_of_is_exact(time_in(counted, Status::Resting));
    Duration::lemma_of_is_exact(elapsed(events, now));
}

/// The report on a session that has ended is the same at every moment.
pub proof fn lemma_closed_report_ignores_clock(events: Seq<Event>, now: Moment, later: Moment)
    requires
        closing_time(events) is Some,
    ensures
        report_of(events, now) == report_of(events, later),
{
}

impl View for Session {
    type V = Seq<Event>;

    /// The events that the session accepted, oldest first.
    closed spec fn view(&self) -> Seq<Event> {
        self.events@
    }
}

impl Session {
    /// The events form a valid history, which the start and the end agree
    /// with.
    pub closed spec fn wf(&self) -> bool {
        &&& valid_history(self.events@)
        &&& self.events@[0] == Event::Create(self.start)
        &&& self.end == closing_time(self.events@)
    }

    /// The history of a well-formed session is valid.
    pub proof fn lemma_history(&self)
        requires
            self.wf(),
        ensures
            valid_history(self@),
    {
    }

    /// A session that starts at `moment`.
    pub fn new(moment: Moment) -> (session: Session)
        ensures
            session.wf(),
            session@ == seq![Event::Create(moment)],
    {
        proof {
            use_type_invariant(moment);
        }
        let mut events: Vec<Event> = Vec::new();
        events.push(Event::Create(moment));
        Session { start: moment, end: None, events }
    }

    /// Hands the session an event. The session takes it where `accepts`
    /// allows, and then ends where the event is the end; any other event is
    /// dropped and leaves the session as it was.
    pub fn event(&mut self, an_event: Event)
        requires
            old(self).wf(),
        ensures
            final(self).wf(),
            final(self)@ == next_history(old(self)@, an_event),
    {
        let last = self.events[self.events.len() - 1];
        if an_event.accepted_after(&last) {
            let moment = an_event.time();
            match an_event {
                Event::Close(_) => {
                    self.end = Some(moment);
                },
                _ => (),
            }
            self.events.push(an_event);
            proof {
                lemma_next_history_is_valid(old(self).events@, an_event);
            }
        }
    }

    /// The time from the start to the end, or to `now` while the session
    /// is running.
    fn get_total(&self, now: Moment) -> (total: Duration)
        requires
            self.wf(),
        ensures
            total@ == elapsed(self@, now),
    {
        match self.end {
            Some(end) => end.signed_duration_since(self.start),
            None => now.signed_duration_since(self.start),
        }
    }

    /// The events of the session, closed at `now`.
    fn fake_close(&self, now: Moment) -> (events: Vec<Event>)
        ensures
            events@ == self@.push(Event::Close(now)),
    {
        let mut events: Vec<Event> = Vec::new();
        let mut i: usize = 0;
        while i < self.events.len()
            invariant
                i <= self.events.len(),
                events@ == self.events@.take(i as int),
            decreases self.events.len() - i,
        {
            events.push(self.events[i]);
            i += 1;
        }
        events.push(Event::Close(now));
        events
    }

    /// The span between each event and the next, in order.
    fn calculate_deltas(events: &Vec<Event>) -> (deltas: Vec<(Status, Duration)>)
        requires
            events.len() > 0,
        ensures
            are_deltas_of(deltas@, events@),
    {
        let mut deltas: Vec<(Status, Duration)> = Vec::new();
        let mut previous = &events[0];
        let mut i: usize = 1;
        while i < events.len()
            invariant
                1 <= i <= events.len(),
                deltas.len() == i - 1,
                *previous == events[i - 1],
                forall|j: int|
                    0 <= j < deltas.len() ==> is_delta(
                        #[trigger] deltas[j],
                        events[j],
                        events[j + 1],
                    ),
            decreases events.len() - i,
        {
            let event = &events[i];
            deltas.push(event.delta_from(previous));
            previous = event;
            i += 1;
        }
        deltas
    }

    /// The sum of the spans of `deltas` that were spent in `status`.
    fn sum_of(deltas: &Vec<(Status, Duration)>, status: Status, Ghost(events): Ghost<
        Seq<Event>,
    >) -> (sum: Duration)
        requires
            are_deltas_of(deltas@, events),
        ensures
            sum@ == time_in(events, status),
    {
        let mut sum = Duration::zero();
        let mut i: usize = 0;
        while i < deltas.len()
            invariant
                i <= deltas.len(),
                are_deltas_of(deltas@, events),
                sum@ == time_in(events.take(i + 1), status),
                -(i * max_span()) <= sum@ <= i * max_span(),
            decreases deltas.len() - i,
        {
            let delta = deltas[i];
            proof {
                let seen = events.take(i + 2);
                assert(seen.drop_last() =~= events.take(i + 1));
                assert(is_delta(deltas@[i as int], events[i as int], events[i + 1]));
                // As many spans as a vector can hold stay far below the longest
                // duration.
                let span = max_span();
                assert((i + 1) * span == i * span + span && i * span + span
                    <= 0x1_0000_0000_0000_0000 * 0x1_0000_0000_0000_0000_0000) by (nonlinear_arith)
                    requires
                        0 <= i < 0x1_0000_0000_0000_0000,
                        0 <= span <= 0x1_0000_0000_0000_0000_0000,
                ;
            }
            if delta.0 == status {
                sum = sum.add(delta.1);
            }
            i += 1;
        }
        proof {
            assert(events.take(i + 1) =~= events);
        }
        sum
    }

    /// The working time and the resting time of the session at `now`.
    fn calculate_office_hours(&self, now: Moment) -> (hours: (Duration, Duration))
        requires
            self.wf(),
        ensures
            hours.0@ == time_in(effective(self@, now), Status::Working),
            hours.1@ == time_in(effective(self@, now), Status::Resting),
    {
        let deltas: Vec<(Status, Duration)>;
        if self.end.is_none() {
            deltas = Self::calculate_deltas(&self.fake_close(now));
        } else {
            deltas = Self::calculate_deltas(&self.events);
        }
        let resting = Self::sum_of(&deltas, Status::Resting, Ghost(effective(self@, now)));
        let working = Self::sum_of(&deltas, Status::Working, Ghost(effective(self@, now)));
        (working, resting)
    }

    /// The events that the session accepted, oldest first.
    pub fn events(&self) -> (events: &Vec<Event>)
        ensures
            events@ == self@,
    {
        &self.events
    }

    /// Whether the session has not ended.
    pub fn is_session_running(&self) -> (running: bool)
        requires
            self.wf(),
        ensures
            running == (closing_time(self@) is None),
    {
        self.end.is_none()
    }

    /// The report on the session at `now`. Where the session has ended,
    /// `now` has no part in it.
    pub fn report_at(&self, now: Moment) -> (report: Report)
        requires
            self.wf(),
        ensures
            report == report_of(self@, now),
            report.total@ == elapsed(self@, now),
            report.working@ == time_in(effective(self@, now), Status::Working),
            report.resting@ == time_in(effective(self@, now), Status::Resting),
            report.working@ + report.resting@ == report.total@,
    {
        let total = self.get_total(now);
        let (working, resting) = self.calculate_office_hours(now);
        proof {
            use_type_invariant(total);
            use_type_invariant(working);
            use_type_invariant(resting);
            total.lemma_is_of_its_view();
            working.lemma_is_of_its_view();
            resting.lemma_is_of_its_view();
            lemma_working_and_resting_make_total(self@, now);
        }
        Report {
            start: Some(self.start),
            end: self.end,
            total: total,
            working: working,
            resting: resting,
        }
    }

    /// The report on the session: the one at its end where it has ended,
    /// and the one at the moment that `clock` gives where it is running.
    pub fn get_report(&self, clock: &Clock) -> (report: Report)
        requires
            self.wf(),
        ensures
            exists|now: Moment| now.wf() && report == report_of(self@, now),
            closing_time(self@) is Some ==> forall|now: Moment| report == report_of(self@, now),
            clock@ matches Some(now) ==> report == report_of(self@, now),
            report.working@ + report.resting@ == report.total@,
    {
        match self.end {
            Some(end) => {
                let report = self.report_at(end);
                proof {
                    use_type_invariant(end);
                    assert forall|now: Moment| report == report_of(self@, now) by {
                        lemma_closed_report_ignores_clock(self@, end, now);
                    }
                }
                report
            },
            None => self.report_at(clock.now()),
        }
    }
}

} // verus!
