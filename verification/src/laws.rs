//! What holds of every run of the controller, proved over the transition
//! system of the model.

use crate::model::{
    advance, answers, initial, next, react, requests, run, seen_prefix, seen_prefix_bounds,
    ControllerView,
};
use crate::envelope::{metadata_of, EmailMetadataView, RawEnvelopeView};
use crate::notice::notification_text;
use crate::protocol::{ActionView, Awaiting, Criteria, EventView, FetchedView};
use crate::recovery::connection_like;
use vstd::prelude::*;

verus! {

/// The request fetches message `uid` or sends its notification.
pub open spec fn processes(a: ActionView, uid: u32) -> bool {
    match a {
        ActionView::Fetch(id) => id == uid,
        ActionView::Notify { uid: id, .. } => id == uid,
        _ => false,
    }
}

/// A message of the current cycle is being fetched or notified.
pub open spec fn handling(awaiting: Awaiting) -> bool {
    awaiting is Fetch || awaiting is Notify
}

/// The event is a connection failure of the probe or of the listing of a
/// cycle.
pub open spec fn calls_for_reconnect(awaiting: Awaiting, e: EventView) -> bool {
    &&& awaiting == Awaiting::Keepalive || awaiting == Awaiting::Listing(Criteria::Unseen)
    &&& e matches EventView::Failed(description)
    &&& connection_like(description)
}

/// How many of the requests ask for a new session.
pub open spec fn count_reconnects(actions: Seq<ActionView>) -> nat
    decreases actions.len(),
{
    if actions.len() == 0 {
        0
    } else {
        let rest = count_reconnects(actions.drop_first());
        if actions[0] is Reconnect {
            1 + rest
        } else {
            rest
        }
    }
}

/// How many events of a run are connection failures of a probe or of a
/// listing of a cycle.
pub open spec fn count_connection_failures(s: ControllerView, events: Seq<EventView>) -> nat
    decreases events.len(),
{
    if events.len() == 0 {
        0
    } else {
        match next(s, events[0]) {
            Some((t, _)) => {
                let rest = count_connection_failures(t, events.drop_first());
                if calls_for_reconnect(s.awaiting, events[0]) {
                    1 + rest
                } else {
                    rest
                }
            },
            None => count_connection_failures(s, events.drop_first()),
        }
    }
}

/// The state after start-up: a session was opened and the listing of the
/// whole mailbox returned `ids`.
pub open spec fn bootstrapped(ids: Seq<u32>) -> ControllerView {
    run(initial(), seq![EventView::Connected, EventView::Listed(ids)])
}

/// Every transition keeps a well-formed state well-formed.
pub proof fn step_keeps_well_formed(s: ControllerView, e: EventView)
    requires
        s.wf(),
    ensures
        next(s, e) matches Some((t, _)) ==> t.wf(),
{
}

/// Every state that a run reaches from the initial state is well-formed.
pub proof fn reachable_is_well_formed(events: Seq<EventView>)
    ensures
        run(initial(), events).wf(),
{
    run_keeps_well_formed(initial(), events);
}

/// A run from a well-formed state ends in a well-formed state.
pub proof fn run_keeps_well_formed(s: ControllerView, events: Seq<EventView>)
    requires
        s.wf(),
    ensures
        run(s, events).wf(),
    decreases events.len(),
{
    if events.len() > 0 {
        match next(s, events[0]) {
            Some((t, _)) => run_keeps_well_formed(t, events.drop_first()),
            None => run_keeps_well_formed(s, events.drop_first()),
        }
    }
}

/// The seen-set only grows: no transition forgets an identifier.
pub proof fn seen_only_grows(s: ControllerView, e: EventView, m: u32)
    requires
        s.seen.contains(m),
    ensures
        next(s, e) matches Some((t, _)) ==> t.seen.contains(m),
{
}

/// Mark before dispatch: whenever a fetch or a notification is asked for, the
/// message is already in the seen-set of the state the request leaves from.
/// For a fetch that is the state just reached, in which the message was
/// marked; for a notification it is also the state before.
pub proof fn marked_before_dispatch(s: ControllerView, e: EventView)
    requires
        s.wf(),
        answers(s.awaiting, e),
    ensures
        match react(s, e).1 {
            ActionView::Fetch(uid) => react(s, e).0.seen.contains(uid),
            ActionView::Notify { uid, .. } => s.seen.contains(uid) && react(s, e).0.seen.contains(
                uid,
            ),
            _ => true,
        },
{
}

/// Mark before dispatch, in any run: whatever events the controller was
/// given since it started, the message of every fetch and of every
/// notification it then asks for is in the seen-set before the request
/// goes out.
pub proof fn marked_before_dispatch_in_any_run(events: Seq<EventView>, e: EventView)
    requires
        answers(run(initial(), events).awaiting, e),
    ensures
        match react(run(initial(), events), e).1 {
            ActionView::Fetch(uid) => react(run(initial(), events), e).0.seen.contains(uid),
            ActionView::Notify { uid, .. } => run(initial(), events).seen.contains(uid),
            _ => true,
        },
{
    reachable_is_well_formed(events);
    marked_before_dispatch(run(initial(), events), e);
}

/// A message is fetched only when it is new: a fetch is never asked for an
/// identifier that was in the seen-set before the transition.
pub proof fn fetch_only_of_new(s: ControllerView, e: EventView)
    requires
        answers(s.awaiting, e),
    ensures
        react(s, e).1 matches ActionView::Fetch(uid) ==> !s.seen.contains(uid),
{
    let rest = match (s.awaiting, e) {
        (Awaiting::Listing(Criteria::Unseen), EventView::Listed(ids)) => ids,
        _ => s.rest,
    };
    seen_prefix_bounds(s.seen, rest);
}

/// One transition from a state in which `m` is seen and not in flight asks
/// nothing for `m` and leads to such a state again.
proof fn step_passes_over_seen(s: ControllerView, e: EventView, m: u32)
    requires
        s.seen.contains(m),
        !s.in_flight(m),
        answers(s.awaiting, e),
    ensures
        !processes(react(s, e).1, m),
        react(s, e).0.seen.contains(m),
        !react(s, e).0.in_flight(m),
{
    fetch_only_of_new(s, e);
}

/// Dedup: once a message is in the seen-set and its own handling is over,
/// no run of events, whatever the listings report, makes the controller
/// fetch it or send a notification for it.
pub proof fn seen_is_never_processed_again(s: ControllerView, events: Seq<EventView>, m: u32)
    requires
        s.seen.contains(m),
        !s.in_flight(m),
    ensures
        forall|i: int|
            0 <= i < requests(s, events).len() ==> !processes(#[trigger] requests(s, events)[i], m),
    decreases events.len(),
{
    if events.len() > 0 {
        let tail = events.drop_first();
        match next(s, events[0]) {
            Some((t, a)) => {
                step_passes_over_seen(s, events[0], m);
                seen_is_never_processed_again(t, tail, m);
                assert forall|i: int| 0 <= i < requests(s, events).len() implies !processes(
                    #[trigger] requests(s, events)[i],
                    m,
                ) by {
                    if i > 0 {
                        assert(requests(s, events)[i] == requests(t, tail)[i - 1]);
                    } else {
                        assert(requests(s, events)[0] == a);
                    }
                }
            },
            None => {
                seen_is_never_processed_again(s, tail, m);
                assert(requests(s, events) == requests(s, tail));
            },
        }
    }
}

/// Bootstrap suppression: after start-up the controller waits for its first
/// tick with exactly the listed identifiers in the seen-set, and no later
/// run of events makes it fetch or notify any of them.
pub proof fn bootstrap_suppression(ids: Seq<u32>, events: Seq<EventView>, m: u32)
    requires
        ids.contains(m),
    ensures
        bootstrapped(ids).awaiting == Awaiting::Tick,
        bootstrapped(ids).seen == ids.to_set(),
        bootstrapped(ids).seen.contains(m),
        forall|i: int|
            0 <= i < requests(bootstrapped(ids), events).len() ==> !processes(
                #[trigger] requests(bootstrapped(ids), events)[i],
                m,
            ),
{
    let first = seq![EventView::Connected, EventView::Listed(ids)];
    let second = first.drop_first();
    let listing = react(initial(), EventView::Connected).0;
    let polling = react(listing, EventView::Listed(ids)).0;
    assert(second[0] == EventView::Listed(ids));
    assert(second.drop_first().len() == 0);
    assert(run(polling, second.drop_first()) == polling);
    assert(run(listing, second) == polling);
    assert(bootstrapped(ids) == polling);
    assert(polling.seen =~= ids.to_set());
    seen_is_never_processed_again(polling, events, m);
}

/// A failure while a message is handled counts for that message alone: the
/// controller goes on with the rest of the listing exactly as it does after
/// a success.
pub proof fn failure_is_passed_over(s: ControllerView, description: Seq<char>)
    requires
        handling(s.awaiting),
    ensures
        react(s, EventView::Failed(description)) == advance(s.seen, s.rest),
        s.awaiting is Notify ==> react(s, EventView::Failed(description)) == react(
            s,
            EventView::Delivered,
        ),
{
}

/// Cycle isolation, from within a cycle: a new message that is still in the
/// rest of the listing is fetched before the cycle is left, whatever happens
/// to the messages handled before it.
pub proof fn rest_of_cycle_is_fetched(s: ControllerView, events: Seq<EventView>, m: u32)
    requires
        handling(s.awaiting),
        s.rest.contains(m),
        !s.seen.contains(m),
        !handling(run(s, events).awaiting),
    ensures
        requests(s, events).contains(ActionView::Fetch(m)),
    decreases events.len(),
{
    if events.len() > 0 {
        let tail = events.drop_first();
        match next(s, events[0]) {
            Some((t, a)) => {
                let found = requests(s, events);
                assert(found[0] == a);
                if a != ActionView::Fetch(m) {
                    if a is Notify {
                    } else {
                        first_new_is_next(s.seen, s.rest, m);
                    }
                    rest_of_cycle_is_fetched(t, tail, m);
                    let later = requests(t, tail);
                    let j = choose|j: int| 0 <= j < later.len() && later[j] == ActionView::Fetch(m);
                    assert(found[j + 1] == later[j]);
                }
            },
            None => {
                rest_of_cycle_is_fetched(s, tail, m);
            },
        }
    }
}

/// Going on with a listing that still holds a new message `m` either asks
/// for the fetch of `m`, or asks for the fetch of another message and keeps
/// `m` new and in the rest.
proof fn first_new_is_next(seen: Set<u32>, rest: Seq<u32>, m: u32)
    requires
        rest.contains(m),
        !seen.contains(m),
    ensures
        advance(seen, rest).1 is Fetch,
        advance(seen, rest).1 != ActionView::Fetch(m) ==> {
            &&& advance(seen, rest).0.rest.contains(m)
            &&& !advance(seen, rest).0.seen.contains(m)
        },
{
    seen_prefix_bounds(seen, rest);
    let k = seen_prefix(seen, rest) as int;
    let at = choose|j: int| 0 <= j < rest.len() && rest[j] == m;
    assert(k <= at);
    if rest[k] != m {
        assert(rest.skip(k + 1)[at - k - 1] == m);
    }
}

/// Cycle isolation: every new message of one listing is fetched before the
/// cycle is left. Failures of fetches and of notifications on the way make
/// no difference: `events` is arbitrary.
pub proof fn every_new_message_is_fetched(
    s: ControllerView,
    ids: Seq<u32>,
    events: Seq<EventView>,
    m: u32,
)
    requires
        s.awaiting == Awaiting::Listing(Criteria::Unseen),
        ids.contains(m),
        !s.seen.contains(m),
        !handling(run(s, seq![EventView::Listed(ids)] + events).awaiting),
    ensures
        requests(s, seq![EventView::Listed(ids)] + events).contains(ActionView::Fetch(m)),
{
    let all = seq![EventView::Listed(ids)] + events;
    assert(all[0] == EventView::Listed(ids));
    assert(all.drop_first() =~= events);
    let (t, a) = advance(s.seen, ids);
    first_new_is_next(s.seen, ids, m);
    let found = requests(s, all);
    assert(found[0] == a);
    if a != ActionView::Fetch(m) {
        rest_of_cycle_is_fetched(t, events, m);
        let later = requests(t, events);
        let j = choose|j: int| 0 <= j < later.len() && later[j] == ActionView::Fetch(m);
        assert(found[j + 1] == later[j]);
    }
}

/// A fetched envelope is always followed by the notification of that
/// message, written from that envelope.
pub proof fn envelope_is_notified(s: ControllerView, uid: u32, env: RawEnvelopeView)
    requires
        s.awaiting == Awaiting::Fetch(uid),
    ensures
        react(s, EventView::Fetched(FetchedView::Envelope(env))).0.awaiting == Awaiting::Notify(
            uid,
        ),
        react(s, EventView::Fetched(FetchedView::Envelope(env))).1 == (ActionView::Notify {
            uid,
            text: notification_text(metadata_of(uid, env)),
        }),
{
}

/// Missing metadata is no failure: a message that came back without an
/// envelope is notified like any other, with the placeholder for the sender,
/// for the subject and for the date, and with its identifier.
pub proof fn missing_envelope_is_notified(s: ControllerView, uid: u32)
    requires
        s.awaiting == Awaiting::Fetch(uid),
    ensures
        react(s, EventView::Fetched(FetchedView::NoEnvelope)).0.awaiting == Awaiting::Notify(uid),
        react(s, EventView::Fetched(FetchedView::NoEnvelope)).1 == (ActionView::Notify {
            uid,
            text: notification_text(
                EmailMetadataView {
                    from: "Unknown Sender"@,
                    subject: "No Subject"@,
                    date: "Unknown Date"@,
                    uid,
                },
            ),
        }),
{
}

/// A notification is asked for exactly where a fetch brought a message
/// back, with or without an envelope. A fetch that failed or that brought no
/// message asks for none.
pub proof fn notify_iff_message_fetched(s: ControllerView, e: EventView)
    requires
        answers(s.awaiting, e),
    ensures
        react(s, e).1 is Notify <==> (s.awaiting is Fetch && (e == EventView::Fetched(
            FetchedView::NoEnvelope,
        ) || e matches EventView::Fetched(FetchedView::Envelope(_)))),
{
}

/// Reconnect trigger: a new session is asked for exactly in answer to a
/// connection failure of the probe or of the listing of a cycle. The request
/// is the direct answer to the failure, so it comes before any later listing.
pub proof fn reconnect_iff_connection_failure(s: ControllerView, e: EventView)
    requires
        answers(s.awaiting, e),
    ensures
        react(s, e).1 is Reconnect <==> calls_for_reconnect(s.awaiting, e),
        calls_for_reconnect(s.awaiting, e) ==> react(s, e).0.awaiting == Awaiting::Reconnect,
{
}

/// A listing of unread messages is asked for only when the probe of the
/// same cycle has succeeded.
pub proof fn listing_follows_probe(s: ControllerView, e: EventView)
    requires
        answers(s.awaiting, e),
    ensures
        react(s, e).1 == ActionView::List(Criteria::Unseen) <==> (s.awaiting == Awaiting::Keepalive
            && !(e is Failed)),
{
}

/// A reconnect under way ends in waiting for the next tick: at once where it
/// succeeded, after one cooldown of sixty seconds where it failed. Neither
/// way is a second reconnect asked for.
pub proof fn reconnect_is_not_retried(s: ControllerView, e: EventView)
    requires
        s.awaiting == Awaiting::Reconnect,
        answers(s.awaiting, e),
    ensures
        e is Connected ==> react(s, e).1 is AwaitTick,
        e is Failed ==> {
            &&& react(s, e).1 == (ActionView::Cooldown { secs: 60 })
            &&& react(react(s, e).0, EventView::Rested).1 is AwaitTick
        },
{
}

/// Exactly one reconnect: in a run that begins with a connection failure of
/// the probe or of the listing and holds no second one, the first request
/// is the reconnect, ahead of whatever listing may follow, and no other
/// request of the run is one.
pub proof fn exactly_one_reconnect(
    s: ControllerView,
    description: Seq<char>,
    events: Seq<EventView>,
)
    requires
        s.awaiting == Awaiting::Keepalive || s.awaiting == Awaiting::Listing(Criteria::Unseen),
        connection_like(description),
        count_connection_failures(react(s, EventView::Failed(description)).0, events) == 0,
    ensures
        requests(s, seq![EventView::Failed(description)] + events)[0] is Reconnect,
        count_reconnects(requests(s, seq![EventView::Failed(description)] + events)) == 1,
{
    let all = seq![EventView::Failed(description)] + events;
    assert(all[0] == EventView::Failed(description));
    assert(all.drop_first() =~= events);
    one_reconnect_per_connection_failure(s, all);
}

/// In every run the controller asks for a new session as many times as a
/// probe or a listing of a cycle failed with a connection failure: once for
/// each, and never otherwise.
pub proof fn one_reconnect_per_connection_failure(s: ControllerView, events: Seq<EventView>)
    ensures
        count_reconnects(requests(s, events)) == count_connection_failures(s, events),
    decreases events.len(),
{
    if events.len() > 0 {
        let tail = events.drop_first();
        match next(s, events[0]) {
            Some((t, a)) => {
                reconnect_iff_connection_failure(s, events[0]);
                one_reconnect_per_connection_failure(t, tail);
                assert(requests(s, events).drop_first() =~= requests(t, tail));
            },
            None => {
                one_reconnect_per_connection_failure(s, tail);
            },
        }
    }
}

} // verus!
