//! The sessions that are kept, each under a number.

use crate::clock::Clock;
use crate::event::Event;
use crate::history::{closing_time, valid_history};
use crate::moment::{Moment, TimeError};
use crate::session::{report_of, Report, Session};
use std::collections::HashMap;
use vstd::prelude::*;

verus! {

/// The sessions that are kept, and the number that the next one gets.
pub struct SessionState {
    last_id: usize,
    sessions: HashMap<usize, Session>,
}

/// The histories of the sessions in `sessions`, each under its number.
pub open spec fn histories(sessions: Map<usize, Session>) -> Map<usize, Seq<Event>> {
    Map::new(|id: usize| sessions.contains_key(id), |id: usize| sessions[id]@)
}

/// Whether every session in `sessions` is well formed.
pub open spec fn all_wf(sessions: Map<usize, Session>) -> bool {
    forall|id: usize| sessions.contains_key(id) ==> (#[trigger] sessions[id]).wf()
}

/// The number after `id`, which is zero after the last one.
pub open spec fn following(id: usize) -> usize {
    if id == usize::MAX {
        0
    } else {
        (id + 1) as usize
    }
}

impl View for SessionState {
    type V = Map<usize, Seq<Event>>;

    /// The history of each kept session, under the session's number.
    closed spec fn view(&self) -> Map<usize, Seq<Event>> {
        histories(self.sessions@)
    }
}

impl SessionState {
    /// The number that the next session gets.
    pub closed spec fn next_id(&self) -> usize {
        self.last_id
    }

    /// Every kept session is well formed.
    pub closed spec fn wf(&self) -> bool {
        all_wf(self.sessions@)
    }

    /// The kept sessions are finitely many, and each has a valid history.
    pub proof fn lemma_histories(&self)
        requires
            self.wf(),
        ensures
            self@.dom().finite(),
            forall|id: usize| self@.contains_key(id) ==> valid_history(#[trigger] self@[id]),
    {
        assert(self@.dom() =~= self.sessions@.dom());
        assert forall|id: usize| self@.contains_key(id) implies valid_history(
            #[trigger] self@[id],
        ) by {
            self.sessions@[id].lemma_history();
        }
    }

    /// Keeps `sessions`, and numbers the next session zero.
    pub fn new(sessions: HashMap<usize, Session>) -> (state: SessionState)
        requires
            all_wf(sessions@),
        ensures
            state.wf(),
            state@ == histories(sessions@),
            state.next_id() == 0,
    {
        SessionState { last_id: 0, sessions }
    }

    /// Keeps `session` under the next number, in the place of the session
    /// that had that number, if there was one.
    pub fn add_session(&mut self, session: Session)
        requires
            old(self).wf(),
            session.wf(),
        ensures
            final(self).wf(),
            final(self)@ == old(self)@.insert(old(self).next_id(), session@),
            final(self).next_id() == following(old(self).next_id()),
    {
        let id = self.last_id;
        self.last_id = id.wrapping_add(1);
        self.sessions.insert(id, session);
        proof {
            assert(self@ =~= old(self)@.insert(id, session@));
        }
    }

    /// Drops the session numbered `id`, and says whether there was one.
    pub fn delete_session(&mut self, id: usize) -> (deleted: bool)
        requires
            old(self).wf(),
        ensures
            final(self).wf(),
            deleted == old(self)@.contains_key(id),
            final(self)@ == old(self)@.remove(id),
            final(self).next_id() == old(self).next_id(),
    {
        let removed = self.sessions.remove(&id);
        proof {
            assert(self@ =~= old(self)@.remove(id));
        }
        match removed {
            Some(_) => true,
            _ => false,
        }
    }

    /// How many sessions are kept.
    pub fn len(&self) -> (count: usize)
        ensures
            count == self@.len(),
    {
        proof {
            assert(self@.dom() =~= self.sessions@.dom());
        }
        self.sessions.len()
    }

    /// The report on the session numbered `id`, measured against `clock`
    /// where the session is running, or `None` where no session has that
    /// number.
    pub fn get_session_report(&self, id: usize, clock: &Clock) -> (report: Option<Report>)
        requires
            self.wf(),
        ensures
            report is Some <==> self@.contains_key(id),
            report matches Some(r) ==> {
                &&& exists|now: Moment| now.wf() && r == report_of(self@[id], now)
                &&& closing_time(self@[id]) is Some ==> forall|now: Moment|
                    r == report_of(self@[id], now)
                &&& clock@ matches Some(now) ==> r == report_of(self@[id], now)
                &&& r.working@ + r.resting@ == r.total@
            },
    {
        match self.sessions.get(&id) {
            Some(session) => Some(session.get_report(clock)),
            None => None,
        }
    }

    /// Starts a session at the moment that the RFC 3339 text `start` names
    /// and keeps it under the next number. Returns the count of the kept
    /// sessions less one, which is that number as long as no session was
    /// dropped. Where the text names no moment, nothing changes.
    pub fn new_session(&mut self, start: &str) -> (added: Result<usize, TimeError>)
        requires
            old(self).wf(),
        ensures
            final(self).wf(),
            match Moment::parsed(start@) {
                Ok(moment) => {
                    &&& final(self)@ == old(self)@.insert(
                        old(self).next_id(),
                        seq![Event::Create(moment)],
                    )
                    &&& final(self).next_id() == following(old(self).next_id())
                    &&& added == Ok::<usize, TimeError>((final(self)@.len() - 1) as usize)
                },
                Err(error) => {
                    &&& final(self)@ == old(self)@
                    &&& final(self).next_id() == old(self).next_id()
                    &&& added == Err::<usize, TimeError>(error)
                },
            },
    {
        match Moment::parse_from_rfc3339(start) {
            Ok(moment) => {
                self.add_session(Session::new(moment));
                proof {
                    self.lemma_histories();
                    assert(self@.dom().contains(old(self).next_id()));
                }
                Ok(self.len() - 1)
            },
            Err(error) => Err(error),
        }
    }
}

} // verus!
