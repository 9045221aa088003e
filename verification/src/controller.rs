//! The poll loop controller. It performs no I/O: it is told how the request
//! under way ended and answers with the next request.

use crate::envelope::EmailMetadata;
use crate::laws::fetch_only_of_new;
use crate::model::{advance, answers, initial, next, seen_prefix_is, ControllerView};
use crate::notice::notification;
use crate::protocol::{
    phase_of, Action, ActionView, Awaiting, Criteria, Event, Phase, POLL_INTERVAL_SECS,
    RECONNECT_COOLDOWN_SECS,
};
use crate::recovery::is_connection_like;
use crate::seen::SeenSet;
use vstd::prelude::*;

verus! {

/// An event arrived that cannot be the end of the request under way.
#[derive(Clone, Copy, Debug, PartialEq, Eq, Structural)]
pub struct Unexpected {
    /// The request that was under way, and still is.
    pub awaiting: Awaiting,
}

/// The controller: the request under way, the identifiers seen so far and
/// what is left of the current listing.
pub struct Controller {
    awaiting: Awaiting,
    seen: SeenSet,
    queue: Vec<u32>,
    cursor: usize,
}

impl View for Controller {
    type V = ControllerView;

    closed spec fn view(&self) -> ControllerView {
        ControllerView {
            awaiting: self.awaiting,
            seen: self.seen@,
            rest: if self.cursor <= self.queue.len() {
                self.queue@.skip(self.cursor as int)
            } else {
                Seq::empty()
            },
        }
    }
}

impl Controller {
    /// A controller in its initial state, with the request it starts with.
    pub fn start() -> (r: (Controller, Action))
        ensures
            r.0@ == initial(),
            r.1@ == ActionView::Connect,
    {
        let c = Controller {
            awaiting: Awaiting::Connect,
            seen: SeenSet::new(),
            queue: Vec::new(),
            cursor: 0,
        };
        assert(c.queue@.skip(0) =~= Seq::<u32>::empty());
        (c, Action::Connect)
    }

    /// The request under way.
    pub fn awaiting(&self) -> (a: Awaiting)
        ensures
            a == self@.awaiting,
    {
        self.awaiting
    }

    /// The phase the controller is in.
    pub fn phase(&self) -> (p: Phase)
        ensures
            p == phase_of(self@.awaiting),
    {
        self.awaiting.phase()
    }

    /// Whether `uid` has been seen.
    pub fn has_seen(&self, uid: u32) -> (b: bool)
        ensures
            b == self@.seen.contains(uid),
    {
        self.seen.contains(uid)
    }

    /// Whether `event` can be the end of the request under way.
    pub fn expects(&self, event: &Event) -> (b: bool)
        ensures
            b == answers(self@.awaiting, event@),
    {
        match self.awaiting {
            Awaiting::Connect => matches!(event, Event::Connected | Event::Failed(_)),
            Awaiting::Listing(_) => matches!(event, Event::Listed(_) | Event::Failed(_)),
            Awaiting::Tick => matches!(event, Event::Ticked),
            Awaiting::Keepalive => matches!(event, Event::KeptAlive | Event::Failed(_)),
            Awaiting::Fetch(_) => matches!(event, Event::Fetched(_) | Event::Failed(_)),
            Awaiting::Notify(_) => matches!(event, Event::Delivered | Event::Failed(_)),
            Awaiting::Reconnect => matches!(event, Event::Connected | Event::Failed(_)),
            Awaiting::Cooldown => matches!(event, Event::Rested),
            Awaiting::Nothing => false,
        }
    }

    /// Ends the cycle.
    fn rest_until_tick(&mut self) -> (a: Action)
        ensures
            (final(self)@, a@) == crate::model::idle(old(self)@.seen),
    {
        self.awaiting = Awaiting::Tick;
        self.cursor = 0;
        self.queue = Vec::new();
        assert(self.queue@.skip(0) =~= Seq::<u32>::empty());
        Action::AwaitTick { period_secs: POLL_INTERVAL_SECS }
    }

    /// Goes on with what is left of the listing.
    fn advance(&mut self) -> (a: Action)
        ensures
            (final(self)@, a@) == advance(old(self)@.seen, old(self)@.rest),
    {
        if self.cursor > self.queue.len() {
            return self.rest_until_tick();
        }
        let ghost rest = self@.rest;
        let ghost start = self.cursor as int;
        while self.cursor < self.queue.len()
            invariant
                start <= self.cursor <= self.queue.len(),
                self.queue == old(self).queue,
                self.awaiting == old(self).awaiting,
                self.seen@ == old(self).seen@,
                rest == old(self)@.rest,
                rest == self.queue@.skip(start),
                rest.len() == self.queue.len() - start,
                forall|j: int| 0 <= j < rest.len() ==> rest[j] == self.queue@[start + j],
                forall|j: int| 0 <= j < self.cursor - start ==> self.seen@.contains(rest[j]),
            decreases self.queue.len() - self.cursor,
        {
            let id = self.queue[self.cursor];
            let ghost k = self.cursor - start;
            self.cursor = self.cursor + 1;
            if !self.seen.contains(id) {
                proof {
                    assert(rest[k] == id);
                    seen_prefix_is(old(self)@.seen, rest, k);
                    assert(self.queue@.skip(self.cursor as int) =~= rest.skip(k + 1));
                }
                self.seen.mark(id);
                self.awaiting = Awaiting::Fetch(id);
                proof {
                    let target = advance(old(self)@.seen, rest).0;
                    assert(self@.rest =~= target.rest);
                    assert(self@.seen =~= target.seen);
                    assert(self@ == target);
                }
                return Action::Fetch(id);
            }
            assert(rest[k] == id);
        }
        proof {
            seen_prefix_is(old(self)@.seen, rest, rest.len() as int);
        }
        self.rest_until_tick()
    }

    /// A probe or a listing of a cycle failed.
    fn recover(&mut self, description: &str) -> (a: Action)
        ensures
            (final(self)@, a@) == crate::model::recover(old(self)@.seen, description@),
    {
        if is_connection_like(description) {
            self.awaiting = Awaiting::Reconnect;
            self.cursor = 0;
            self.queue = Vec::new();
            assert(self.queue@.skip(0) =~= Seq::<u32>::empty());
            Action::Reconnect
        } else {
            self.rest_until_tick()
        }
    }

    /// Start-up failed.
    fn halt(&mut self) -> (a: Action)
        ensures
            (final(self)@, a@) == crate::model::halt(old(self)@.seen),
    {
        self.awaiting = Awaiting::Nothing;
        self.cursor = 0;
        self.queue = Vec::new();
        assert(self.queue@.skip(0) =~= Seq::<u32>::empty());
        Action::Abort
    }

    /// Takes in how the request under way ended and answers with the next
    /// request. An event that cannot be the end of the request under way is
    /// refused and changes nothing.
    pub fn step(&mut self, event: Event) -> (r: Result<Action, Unexpected>)
        ensures
            match next(old(self)@, event@) {
                Some((state, action)) => r matches Ok(a) && a@ == action && final(self)@ == state,
                None => r == Err::<Action, Unexpected>(Unexpected { awaiting: old(self)@.awaiting })
                    && final(self)@ == old(self)@,
            },
            old(self)@.wf() ==> final(self)@.wf(),
            r matches Ok(Action::Fetch(uid)) ==> {
                &&& !old(self)@.seen.contains(uid)
                &&& final(self)@.seen.contains(uid)
            },
            r matches Ok(Action::Notify { uid, .. }) ==> {
                &&& old(self)@.awaiting == Awaiting::Fetch(uid)
                &&& old(self)@.wf() ==> old(self)@.seen.contains(uid)
            },
    {
        proof {
            if answers(self@.awaiting, event@) {
                fetch_only_of_new(self@, event@);
            }
        }
        if !self.expects(&event) {
            return Err(Unexpected { awaiting: self.awaiting });
        }
        let action = match self.awaiting {
            Awaiting::Connect => match event {
                Event::Connected => {
                    self.awaiting = Awaiting::Listing(Criteria::All);
                    Action::List(Criteria::All)
                },
                _ => self.halt(),
            },
            Awaiting::Listing(Criteria::All) => match event {
                Event::Listed(ids) => {
                    self.seen.mark_all(&ids);
                    self.rest_until_tick()
                },
                _ => self.halt(),
            },
            Awaiting::Tick => {
                self.awaiting = Awaiting::Keepalive;
                Action::Keepalive
            },
            Awaiting::Keepalive => match event {
                Event::Failed(description) => self.recover(description.as_str()),
                _ => {
                    self.awaiting = Awaiting::Listing(Criteria::Unseen);
                    Action::List(Criteria::Unseen)
                },
            },
            Awaiting::Listing(Criteria::Unseen) => match event {
                Event::Listed(ids) => {
                    self.cursor = 0;
                    self.queue = ids;
                    assert(self.queue@.skip(0) =~= self.queue@);
                    self.advance()
                },
                Event::Failed(description) => self.recover(description.as_str()),
                _ => self.rest_until_tick(),
            },
            Awaiting::Fetch(uid) => {
                let envelope = match event {
                    Event::Fetched(fetched) => fetched.into_envelope(),
                    _ => None,
                };
                match envelope {
                    Some(env) => {
                        let meta = EmailMetadata::from_envelope(uid, &env);
                        self.awaiting = Awaiting::Notify(uid);
                        Action::Notify { uid, text: notification(&meta) }
                    },
                    None => self.advance(),
                }
            },
            Awaiting::Notify(_) => self.advance(),
            Awaiting::Reconnect => match event {
                Event::Connected => self.rest_until_tick(),
                _ => {
                    self.awaiting = Awaiting::Cooldown;
                    Action::Cooldown { secs: RECONNECT_COOLDOWN_SECS }
                },
            },
            Awaiting::Cooldown => self.rest_until_tick(),
            Awaiting::Nothing => self.halt(),
        };
        Ok(action)
    }
}

} // verus!
