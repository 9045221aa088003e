//! The controller as a transition system over plain values: a state, an
//! event that ends the request under way, and from the two the next state
//! and the next request.

use crate::envelope::{metadata_of, RawEnvelopeView};
use crate::notice::notification_text;
use crate::protocol::{
    envelope_of, ActionView, Awaiting, Criteria, EventView, POLL_INTERVAL_SECS,
    RECONNECT_COOLDOWN_SECS,
};
use crate::recovery::connection_like;
use vstd::prelude::*;

verus! {

/// The state of the controller.
pub struct ControllerView {
    /// The request under way.
    pub awaiting: Awaiting,
    /// The identifiers that were handed to the notification path, or were in
    /// the mailbox at start-up.
    pub seen: Set<u32>,
    /// What is left to look at of the listing of the current cycle.
    pub rest: Seq<u32>,
}

impl ControllerView {
    /// A message that is being fetched or notified has been marked before.
    pub open spec fn wf(self) -> bool {
        match self.awaiting {
            Awaiting::Fetch(uid) => self.seen.contains(uid),
            Awaiting::Notify(uid) => self.seen.contains(uid),
            _ => true,
        }
    }

    /// Message `uid` is being fetched or notified.
    pub open spec fn in_flight(self, uid: u32) -> bool {
        self.awaiting == Awaiting::Fetch(uid) || self.awaiting == Awaiting::Notify(uid)
    }
}

/// The state in which the controller starts: the first session is being
/// opened and nothing has been seen.
pub open spec fn initial() -> ControllerView {
    ControllerView { awaiting: Awaiting::Connect, seen: Set::empty(), rest: Seq::empty() }
}

/// Whether event `e` can be the end of the request under way.
pub open spec fn answers(awaiting: Awaiting, e: EventView) -> bool {
    match awaiting {
        Awaiting::Connect => e is Connected || e is Failed,
        Awaiting::Listing(_) => e is Listed || e is Failed,
        Awaiting::Tick => e is Ticked,
        Awaiting::Keepalive => e is KeptAlive || e is Failed,
        Awaiting::Fetch(_) => e is Fetched || e is Failed,
        Awaiting::Notify(_) => e is Delivered || e is Failed,
        Awaiting::Reconnect => e is Connected || e is Failed,
        Awaiting::Cooldown => e is Rested,
        Awaiting::Nothing => false,
    }
}

/// How many identifiers at the front of `ids` are already in `seen`.
pub open spec fn seen_prefix(seen: Set<u32>, ids: Seq<u32>) -> nat
    decreases ids.len(),
{
    if ids.len() > 0 && seen.contains(ids[0]) {
        1 + seen_prefix(seen, ids.drop_first())
    } else {
        0
    }
}

/// The cycle is over: wait for the next tick.
pub open spec fn idle(seen: Set<u32>) -> (ControllerView, ActionView) {
    (
        ControllerView { awaiting: Awaiting::Tick, seen, rest: Seq::empty() },
        ActionView::AwaitTick { period_secs: POLL_INTERVAL_SECS },
    )
}

/// Goes on with a listing: identifiers already seen are passed over; the
/// first new one is marked and its fetch is asked for; with none left the
/// cycle is over.
pub open spec fn advance(seen: Set<u32>, rest: Seq<u32>) -> (ControllerView, ActionView) {
    let k = seen_prefix(seen, rest) as int;
    if k < rest.len() {
        (
            ControllerView {
                awaiting: Awaiting::Fetch(rest[k]),
                seen: seen.insert(rest[k]),
                rest: rest.skip(k + 1),
            },
            ActionView::Fetch(rest[k]),
        )
    } else {
        idle(seen)
    }
}

/// A probe or a listing of a cycle failed: a connection failure asks for a
/// new session, any other failure just ends the cycle.
pub open spec fn recover(seen: Set<u32>, description: Seq<char>) -> (ControllerView, ActionView) {
    if connection_like(description) {
        (
            ControllerView { awaiting: Awaiting::Reconnect, seen, rest: Seq::empty() },
            ActionView::Reconnect,
        )
    } else {
        idle(seen)
    }
}

/// Start-up failed: nothing more is asked.
pub open spec fn halt(seen: Set<u32>) -> (ControllerView, ActionView) {
    (ControllerView { awaiting: Awaiting::Nothing, seen, rest: Seq::empty() }, ActionView::Abort)
}

/// The envelope that the end of a fetch leaves to notify from. A message
/// that came without an envelope is notified all the same, from a blank
/// one; a fetch that failed or brought no message leaves nothing.
pub open spec fn fetched_envelope(e: EventView) -> Option<RawEnvelopeView> {
    match e {
        EventView::Fetched(fetched) => envelope_of(fetched),
        _ => None,
    }
}

/// The next state and request, where `e` ends the request under way.
pub open spec fn react(s: ControllerView, e: EventView) -> (ControllerView, ActionView)
    recommends
        answers(s.awaiting, e),
{
    match s.awaiting {
        Awaiting::Connect => match e {
            EventView::Connected => (
                ControllerView { awaiting: Awaiting::Listing(Criteria::All), ..s },
                ActionView::List(Criteria::All),
            ),
            _ => halt(s.seen),
        },
        Awaiting::Listing(Criteria::All) => match e {
            EventView::Listed(ids) => idle(s.seen.union(ids.to_set())),
            _ => halt(s.seen),
        },
        Awaiting::Tick => (
            ControllerView { awaiting: Awaiting::Keepalive, ..s },
            ActionView::Keepalive,
        ),
        Awaiting::Keepalive => match e {
            EventView::Failed(description) => recover(s.seen, description),
            _ => (
                ControllerView { awaiting: Awaiting::Listing(Criteria::Unseen), ..s },
                ActionView::List(Criteria::Unseen),
            ),
        },
        Awaiting::Listing(Criteria::Unseen) => match e {
            EventView::Listed(ids) => advance(s.seen, ids),
            EventView::Failed(description) => recover(s.seen, description),
            _ => idle(s.seen),
        },
        Awaiting::Fetch(uid) => match fetched_envelope(e) {
            Some(env) => (
                ControllerView { awaiting: Awaiting::Notify(uid), ..s },
                ActionView::Notify { uid, text: notification_text(metadata_of(uid, env)) },
            ),
            None => advance(s.seen, s.rest),
        },
        Awaiting::Notify(_) => advance(s.seen, s.rest),
        Awaiting::Reconnect => match e {
            EventView::Connected => idle(s.seen),
            _ => (
                ControllerView { awaiting: Awaiting::Cooldown, ..s },
                ActionView::Cooldown { secs: RECONNECT_COOLDOWN_SECS },
            ),
        },
        Awaiting::Cooldown => idle(s.seen),
        Awaiting::Nothing => halt(s.seen),
    }
}

/// The transition: the next state and request where `e` ends the request
/// under way, and nothing where it cannot.
pub open spec fn next(s: ControllerView, e: EventView) -> Option<(ControllerView, ActionView)> {
    if answers(s.awaiting, e) {
        Some(react(s, e))
    } else {
        None
    }
}

/// The state after a run of events. An event that cannot end the request
/// under way changes nothing.
pub open spec fn run(s: ControllerView, events: Seq<EventView>) -> ControllerView
    decreases events.len(),
{
    if events.len() == 0 {
        s
    } else {
        match next(s, events[0]) {
            Some((t, _)) => run(t, events.drop_first()),
            None => run(s, events.drop_first()),
        }
    }
}

/// The requests made in a run of events, in order.
pub open spec fn requests(s: ControllerView, events: Seq<EventView>) -> Seq<ActionView>
    decreases events.len(),
{
    if events.len() == 0 {
        Seq::empty()
    } else {
        match next(s, events[0]) {
            Some((t, a)) => seq![a] + requests(t, events.drop_first()),
            None => requests(s, events.drop_first()),
        }
    }
}

/// `seen_prefix` is the position of the first identifier that is not in
/// `seen`, or the length of the listing where all are.
pub proof fn seen_prefix_is(seen: Set<u32>, ids: Seq<u32>, k: int)
    requires
        0 <= k <= ids.len(),
        forall|j: int| 0 <= j < k ==> seen.contains(ids[j]),
        k < ids.len() ==> !seen.contains(ids[k]),
    ensures
        seen_prefix(seen, ids) == k,
    decreases ids.len(),
{
    if k > 0 {
        let tail = ids.drop_first();
        assert forall|j: int| 0 <= j < k - 1 implies seen.contains(tail[j]) by {
            assert(tail[j] == ids[j + 1]);
        }
        seen_prefix_is(seen, tail, k - 1);
    }
}

/// The identifiers passed over by `seen_prefix` are all in `seen`, and the
/// one it stops at is not.
pub proof fn seen_prefix_bounds(seen: Set<u32>, ids: Seq<u32>)
    ensures
        seen_prefix(seen, ids) <= ids.len(),
        forall|j: int| 0 <= j < seen_prefix(seen, ids) ==> seen.contains(ids[j]),
        seen_prefix(seen, ids) < ids.len() ==> !seen.contains(ids[seen_prefix(seen, ids) as int]),
    decreases ids.len(),
{
    if ids.len() > 0 && seen.contains(ids[0]) {
        let tail = ids.drop_first();
        seen_prefix_bounds(seen, tail);
        let k = seen_prefix(seen, tail) as int;
        assert forall|j: int| 0 <= j < k + 1 implies seen.contains(ids[j]) by {
            if j > 0 {
                assert(ids[j] == tail[j - 1]);
            }
        }
        if k < tail.len() {
            assert(tail[k] == ids[k + 1]);
        }
    }
}

} // verus!
