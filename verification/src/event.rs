//! The events of a session, and what each one means for the time after it.

use crate::duration::Duration;
use crate::moment::{max_span, Moment};
use vstd::prelude::*;

verus! {

/// Something that happened to a session, with the moment it happened at.
#[derive(Clone, Copy, Debug, PartialEq, Eq, Structural)]
pub enum Event {
    /// The session was opened.
    Create(Moment),
    /// The worker paused.
    Lock(Moment),
    /// The worker resumed.
    Unlock(Moment),
    /// The session ended.
    Close(Moment),
}

/// What the worker does between two events.
#[derive(Clone, Copy, Debug, PartialEq, Eq, Structural)]
pub enum Status {
    Resting,
    Working,
}

/// Whether a session whose last event is `last` takes `incoming`: a pause
/// while working, a resumption while resting, the end while running, and
/// never a second start.
pub open spec fn accepts(last: Event, incoming: Event) -> bool {
    match incoming {
        Event::Lock(_) => last is Unlock || last is Create,
        Event::Unlock(_) => last is Lock,
        Event::Close(_) => !(last is Close),
        Event::Create(_) => false,
    }
}

/// Whether `delta` is the span from `previous` to `current`, with the
/// status that `previous` is followed by.
pub open spec fn is_delta(delta: (Status, Duration), previous: Event, current: Event) -> bool {
    &&& delta.0 == previous.status_after()
    &&& delta.1@ == current.moment()@ - previous.moment()@
    &&& -max_span() <= delta.1@ <= max_span()
}

impl Event {
    /// The moment the event carries.
    pub open spec fn moment(self) -> Moment {
        match self {
            Event::Create(moment) => moment,
            Event::Lock(moment) => moment,
            Event::Unlock(moment) => moment,
            Event::Close(moment) => moment,
        }
    }

    /// What the worker does from this event on: work after the start and
    /// after a resumption, rest after a pause and after the end.
    pub open spec fn status_after(self) -> Status {
        match self {
            Event::Create(_) => Status::Working,
            Event::Unlock(_) => Status::Working,
            Event::Lock(_) => Status::Resting,
            Event::Close(_) => Status::Resting,
        }
    }

    /// The moment the event happened at.
    pub fn time(&self) -> (moment: Moment)
        ensures
            moment == self.moment(),
            moment.wf(),
    {
        let moment = match self {
            Event::Create(moment) => *moment,
            Event::Lock(moment) => *moment,
            Event::Unlock(moment) => *moment,
            Event::Close(moment) => *moment,
        };
        proof {
            use_type_invariant(moment);
        }
        moment
    }

    /// Whether a session whose last event is `last` takes this event.
    pub fn accepted_after(&self, last: &Event) -> (accepted: bool)
        ensures
            accepted == accepts(*last, *self),
    {
        match self {
            Event::Lock(_) => match last {
                Event::Unlock(_) => true,
                Event::Create(_) => true,
                _ => false,
            },
            Event::Unlock(_) => match last {
                Event::Lock(_) => true,
                _ => false,
            },
            Event::Close(_) => match last {
                Event::Close(_) => false,
                _ => true,
            },
            Event::Create(_) => false,
        }
    }

    /// The span from `other` to this event, with what the worker did in it:
    /// work where `other` is the start or a resumption, rest otherwise.
    pub fn delta_from(&self, other: &Event) -> (delta: (Status, Duration))
        ensures
            delta == (other.status_after(), Duration::of(self.moment()@ - other.moment()@)),
            is_delta(delta, *other, *self),
    {
        let status: Status;
        let other_time: &Moment;
        match other {
            Event::Create(moment) | Event::Unlock(moment) => {
                status = Status::Working;
                other_time = moment;
            },
            Event::Close(moment) | Event::Lock(moment) => {
                status = Status::Resting;
                other_time = moment;
            },
        };
        match self {
            Event::Create(moment) | Event::Unlock(moment) | Event::Close(moment) | Event::Lock(
                moment,
            ) => {
                let duration = moment.signed_duration_since(*other_time);
                (status, duration)
            },
        }
    }
}

} // verus!
