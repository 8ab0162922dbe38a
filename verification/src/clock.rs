//! The source of the present moment.

use crate::moment::Moment;
use vstd::prelude::*;

verus! {

/// A clock that a report of a running session is measured against.
///
/// It follows the system's clock unless it is held at a moment of the
/// caller's choosing, which makes what depends on it repeatable.
#[derive(Clone, Copy, Debug)]
pub struct Clock {
    fixed: Option<Moment>,
}

impl View for Clock {
    type V = Option<Moment>;

    /// The moment that the clock is held at, if it is held.
    closed spec fn view(&self) -> Option<Moment> {
        self.fixed
    }
}

impl Clock {
    /// A clock that follows the system's clock.
    pub fn system() -> (clock: Clock)
        ensures
            clock@ is None,
    {
        Clock { fixed: None }
    }

    /// A clock held at `time`.
    pub fn fixed(time: Moment) -> (clock: Clock)
        ensures
            clock@ == Some(time),
    {
        Clock { fixed: Some(time) }
    }

    /// Holds the clock at `time`.
    pub fn set_mock_time(&mut self, time: Moment)
        ensures
            final(self)@ == Some(time),
    {
        self.fixed = Some(time);
    }

    /// Lets the clock follow the system's clock again.
    pub fn clear_mock_time(&mut self)
        ensures
            final(self)@ is None,
    {
        self.fixed = None;
    }

    /// The present moment: the one that the clock is held at, or else the
    /// one that the system's clock gives.
    pub fn now(&self) -> (moment: Moment)
        ensures
            moment.wf(),
            self@ matches Some(time) ==> moment == time,
    {
        match self.fixed {
            Some(time) => {
                proof {
                    use_type_invariant(time);
                }
                time
            },
            None => Moment::now(),
        }
    }
}

} // verus!
