use mail_notifier::controller::{Controller, Unexpected};
use mail_notifier::envelope::{RawAddress, RawEnvelope};
use mail_notifier::protocol::{
    Action, Awaiting, Criteria, Event, Fetched, Phase, FETCH_QUERY, POLL_INTERVAL_SECS,
    RECONNECT_COOLDOWN_SECS,
};

fn bytes(s: &str) -> Option<Vec<u8>> {
    Some(s.as_bytes().to_vec())
}

fn envelope() -> RawEnvelope {
    RawEnvelope {
        date: bytes("Mon"),
        subject: bytes("Hi"),
        from: Some(vec![RawAddress { name: bytes("Alice"), mailbox: bytes("a"), host: bytes("b.com") }]),
    }
}

fn text_for(uid: u32) -> String {
    format!("📧 **New Email Received!**\n\n**From:** Alice <a@b.com>\n**Subject:** Hi\n**Date:** Mon\n**UID:** {uid}")
}

fn placeholder_text_for(uid: u32) -> String {
    format!("📧 **New Email Received!**\n\n**From:** Unknown Sender\n**Subject:** No Subject\n**Date:** Unknown Date\n**UID:** {uid}")
}

fn failed(s: &str) -> Event {
    Event::Failed(String::from(s))
}

/// A controller that has started with `existing` in the mailbox and waits
/// for its first tick.
fn polling(existing: Vec<u32>) -> Controller {
    let (mut c, first) = Controller::start();
    assert_eq!(first, Action::Connect);
    assert_eq!(c.step(Event::Connected), Ok(Action::List(Criteria::All)));
    assert_eq!(c.step(Event::Listed(existing)), Ok(Action::AwaitTick { period_secs: 30 }));
    c
}

/// Runs a tick and a successful probe, then hands in the listing.
fn list_unseen(c: &mut Controller, ids: Vec<u32>) -> Action {
    assert_eq!(c.step(Event::Ticked), Ok(Action::Keepalive));
    assert_eq!(c.step(Event::KeptAlive), Ok(Action::List(Criteria::Unseen)));
    c.step(Event::Listed(ids)).unwrap()
}

#[test]
fn starts_by_connecting() {
    let (c, first) = Controller::start();
    assert_eq!(first, Action::Connect);
    assert_eq!(c.awaiting(), Awaiting::Connect);
    assert_eq!(c.phase(), Phase::Bootstrapping);
    assert!(!c.has_seen(1));
}

#[test]
fn bootstrap_seeds_the_seen_set_and_unseen_skips_it() {
    let mut c = polling(vec![1, 2, 3]);
    assert_eq!(c.phase(), Phase::Polling);
    for id in [1, 2, 3] {
        assert!(c.has_seen(id));
    }
    assert!(!c.has_seen(4));
    assert_eq!(list_unseen(&mut c, vec![3, 4]), Action::Fetch(4));
    assert!(c.has_seen(4));
    assert_eq!(
        c.step(Event::Fetched(Fetched::Envelope(envelope()))),
        Ok(Action::Notify { uid: 4, text: text_for(4) })
    );
    assert_eq!(c.step(Event::Delivered), Ok(Action::AwaitTick { period_secs: 30 }));
    assert_eq!(c.awaiting(), Awaiting::Tick);
}

#[test]
fn fetched_message_is_notified_with_the_template() {
    let mut c = polling(Vec::new());
    assert_eq!(list_unseen(&mut c, vec![5]), Action::Fetch(5));
    assert_eq!(
        c.step(Event::Fetched(Fetched::Envelope(envelope()))),
        Ok(Action::Notify {
            uid: 5,
            text: String::from(
                "📧 **New Email Received!**\n\n**From:** Alice <a@b.com>\n**Subject:** Hi\n**Date:** Mon\n**UID:** 5"
            ),
        })
    );
}

#[test]
fn keepalive_connection_failure_reconnects_once() {
    let mut c = polling(vec![1]);
    assert_eq!(c.step(Event::Ticked), Ok(Action::Keepalive));
    assert_eq!(c.step(failed("connection reset")), Ok(Action::Reconnect));
    assert_eq!(c.awaiting(), Awaiting::Reconnect);
    assert_eq!(c.phase(), Phase::Recovering);
    // the new session is there: back to polling at once, and the next
    // listing comes only after a tick and a probe
    assert_eq!(c.step(Event::Connected), Ok(Action::AwaitTick { period_secs: 30 }));
    assert_eq!(c.phase(), Phase::Polling);
    assert_eq!(c.step(Event::Ticked), Ok(Action::Keepalive));
    assert_eq!(c.step(Event::KeptAlive), Ok(Action::List(Criteria::Unseen)));
}

#[test]
fn listing_connection_failure_reconnects() {
    let mut c = polling(Vec::new());
    assert_eq!(c.step(Event::Ticked), Ok(Action::Keepalive));
    assert_eq!(c.step(Event::KeptAlive), Ok(Action::List(Criteria::Unseen)));
    assert_eq!(c.step(failed("read timeout")), Ok(Action::Reconnect));
}

#[test]
fn other_cycle_failures_end_the_cycle_without_reconnect() {
    let mut c = polling(Vec::new());
    assert_eq!(c.step(Event::Ticked), Ok(Action::Keepalive));
    assert_eq!(c.step(failed("Failed to send NOOP command")), Ok(Action::AwaitTick { period_secs: 30 }));
    assert_eq!(c.step(Event::Ticked), Ok(Action::Keepalive));
    assert_eq!(c.step(Event::KeptAlive), Ok(Action::List(Criteria::Unseen)));
    assert_eq!(c.step(failed("bad response")), Ok(Action::AwaitTick { period_secs: 30 }));
    assert_eq!(c.awaiting(), Awaiting::Tick);
}

#[test]
fn failed_reconnect_rests_sixty_seconds_then_polls() {
    let mut c = polling(Vec::new());
    assert_eq!(c.step(Event::Ticked), Ok(Action::Keepalive));
    assert_eq!(c.step(failed("connection closed")), Ok(Action::Reconnect));
    assert_eq!(c.step(failed("connection refused")), Ok(Action::Cooldown { secs: 60 }));
    assert_eq!(c.awaiting(), Awaiting::Cooldown);
    assert_eq!(c.phase(), Phase::Recovering);
    assert_eq!(c.step(Event::Rested), Ok(Action::AwaitTick { period_secs: 30 }));
    // no second reconnect by itself: the next probe decides
    assert_eq!(c.step(Event::Ticked), Ok(Action::Keepalive));
    assert_eq!(c.step(failed("connection closed")), Ok(Action::Reconnect));
}

#[test]
fn failure_of_one_message_does_not_stop_the_next() {
    let mut c = polling(Vec::new());
    assert_eq!(list_unseen(&mut c, vec![10, 11, 12, 13]), Action::Fetch(10));
    // fetch fails
    assert_eq!(c.step(failed("connection reset")), Ok(Action::Fetch(11)));
    // the server has no such message
    assert_eq!(c.step(Event::Fetched(Fetched::Nothing)), Ok(Action::Fetch(12)));
    // notification fails
    assert_eq!(
        c.step(Event::Fetched(Fetched::Envelope(envelope()))),
        Ok(Action::Notify { uid: 12, text: text_for(12) })
    );
    assert_eq!(c.step(failed("timeout")), Ok(Action::Fetch(13)));
    // the message comes without an envelope: that is no failure
    assert_eq!(
        c.step(Event::Fetched(Fetched::NoEnvelope)),
        Ok(Action::Notify { uid: 13, text: placeholder_text_for(13) })
    );
    assert_eq!(c.step(Event::Delivered), Ok(Action::AwaitTick { period_secs: 30 }));
    for id in [10, 11, 12, 13] {
        assert!(c.has_seen(id));
    }
}

#[test]
fn message_without_envelope_is_notified_with_placeholders() {
    let mut c = polling(Vec::new());
    assert_eq!(list_unseen(&mut c, vec![7, 8]), Action::Fetch(7));
    assert_eq!(
        c.step(Event::Fetched(Fetched::NoEnvelope)),
        Ok(Action::Notify {
            uid: 7,
            text: String::from(
                "📧 **New Email Received!**\n\n**From:** Unknown Sender\n**Subject:** No Subject\n**Date:** Unknown Date\n**UID:** 7"
            ),
        })
    );
    assert_eq!(c.awaiting(), Awaiting::Notify(7));
    assert_eq!(c.step(Event::Delivered), Ok(Action::Fetch(8)));
}

#[test]
fn envelope_with_every_field_missing_is_notified_like_no_envelope() {
    let mut c = polling(Vec::new());
    assert_eq!(list_unseen(&mut c, vec![7]), Action::Fetch(7));
    assert_eq!(
        c.step(Event::Fetched(Fetched::Envelope(RawEnvelope::blank()))),
        Ok(Action::Notify { uid: 7, text: placeholder_text_for(7) })
    );
}

#[test]
fn fetch_that_brings_no_message_sends_nothing() {
    let mut c = polling(Vec::new());
    assert_eq!(list_unseen(&mut c, vec![7, 8]), Action::Fetch(7));
    assert_eq!(c.step(Event::Fetched(Fetched::Nothing)), Ok(Action::Fetch(8)));
    assert_eq!(c.step(failed("Failed to fetch email")), Ok(Action::AwaitTick { period_secs: 30 }));
    assert!(c.has_seen(7));
    assert!(c.has_seen(8));
}

#[test]
fn what_a_fetch_leaves_to_notify_from() {
    assert_eq!(Fetched::Nothing.into_envelope(), None);
    assert_eq!(
        Fetched::NoEnvelope.into_envelope(),
        Some(RawEnvelope { date: None, subject: None, from: None })
    );
    assert_eq!(Fetched::Envelope(envelope()).into_envelope(), Some(envelope()));
}

#[test]
fn a_failed_message_is_not_retried() {
    let mut c = polling(Vec::new());
    assert_eq!(list_unseen(&mut c, vec![10]), Action::Fetch(10));
    assert_eq!(c.step(failed("no luck")), Ok(Action::AwaitTick { period_secs: 30 }));
    assert!(c.has_seen(10));
    assert_eq!(list_unseen(&mut c, vec![10]), Action::AwaitTick { period_secs: 30 });
}

#[test]
fn seen_messages_are_not_processed_again() {
    let mut c = polling(vec![1]);
    assert_eq!(list_unseen(&mut c, vec![2]), Action::Fetch(2));
    assert_eq!(c.step(Event::Fetched(Fetched::Envelope(envelope()))).unwrap(), Action::Notify { uid: 2, text: text_for(2) });
    assert_eq!(c.step(Event::Delivered), Ok(Action::AwaitTick { period_secs: 30 }));
    assert_eq!(list_unseen(&mut c, vec![1, 2]), Action::AwaitTick { period_secs: 30 });
    assert_eq!(list_unseen(&mut c, vec![2, 1, 2, 3, 1]), Action::Fetch(3));
    assert_eq!(c.step(Event::Fetched(Fetched::Nothing)), Ok(Action::AwaitTick { period_secs: 30 }));
}

#[test]
fn message_is_marked_when_its_fetch_is_asked_for() {
    let mut c = polling(Vec::new());
    assert!(!c.has_seen(8));
    assert_eq!(list_unseen(&mut c, vec![8, 9]), Action::Fetch(8));
    assert!(c.has_seen(8));
    assert!(!c.has_seen(9));
    let a = c.step(Event::Fetched(Fetched::Envelope(envelope()))).unwrap();
    assert_eq!(a, Action::Notify { uid: 8, text: text_for(8) });
    assert!(c.has_seen(8));
    assert!(!c.has_seen(9));
    assert_eq!(c.step(Event::Delivered), Ok(Action::Fetch(9)));
    assert!(c.has_seen(9));
}

#[test]
fn a_repeated_identifier_in_one_listing_is_processed_once() {
    let mut c = polling(Vec::new());
    assert_eq!(list_unseen(&mut c, vec![4, 4, 5, 4]), Action::Fetch(4));
    assert_eq!(c.step(Event::Fetched(Fetched::Nothing)), Ok(Action::Fetch(5)));
    assert_eq!(c.step(Event::Fetched(Fetched::Nothing)), Ok(Action::AwaitTick { period_secs: 30 }));
}

#[test]
fn empty_listing_ends_the_cycle() {
    let mut c = polling(vec![1]);
    assert_eq!(list_unseen(&mut c, Vec::new()), Action::AwaitTick { period_secs: 30 });
    assert_eq!(c.awaiting(), Awaiting::Tick);
}

#[test]
fn failed_first_connect_is_fatal() {
    let (mut c, _) = Controller::start();
    assert_eq!(c.step(failed("connection refused")), Ok(Action::Abort));
    assert_eq!(c.awaiting(), Awaiting::Nothing);
    assert_eq!(c.phase(), Phase::Terminated);
    assert_eq!(c.step(Event::Connected), Err(Unexpected { awaiting: Awaiting::Nothing }));
    assert_eq!(c.step(Event::Ticked), Err(Unexpected { awaiting: Awaiting::Nothing }));
}

#[test]
fn failed_first_listing_is_fatal() {
    let (mut c, _) = Controller::start();
    assert_eq!(c.step(Event::Connected), Ok(Action::List(Criteria::All)));
    assert_eq!(c.step(failed("timeout")), Ok(Action::Abort));
    assert_eq!(c.phase(), Phase::Terminated);
}

#[test]
fn events_that_do_not_answer_are_refused_and_change_nothing() {
    let mut c = polling(vec![1]);
    for e in [
        Event::Connected,
        Event::Listed(vec![7]),
        Event::KeptAlive,
        Event::Fetched(Fetched::Nothing),
        Event::Delivered,
        Event::Rested,
        failed("connection reset"),
    ] {
        assert!(!c.expects(&e));
        assert_eq!(c.step(e), Err(Unexpected { awaiting: Awaiting::Tick }));
    }
    assert_eq!(c.awaiting(), Awaiting::Tick);
    assert!(!c.has_seen(7));
    assert!(c.expects(&Event::Ticked));
    assert_eq!(list_unseen(&mut c, vec![7]), Action::Fetch(7));
    assert_eq!(c.step(Event::Delivered), Err(Unexpected { awaiting: Awaiting::Fetch(7) }));
    assert_eq!(c.step(Event::Ticked), Err(Unexpected { awaiting: Awaiting::Fetch(7) }));
    assert_eq!(c.step(Event::Fetched(Fetched::Envelope(envelope()))).unwrap(), Action::Notify { uid: 7, text: text_for(7) });
    assert_eq!(
        c.step(Event::Fetched(Fetched::Nothing)),
        Err(Unexpected { awaiting: Awaiting::Notify(7) })
    );
    assert_eq!(c.step(Event::Delivered), Ok(Action::AwaitTick { period_secs: 30 }));
}

#[test]
fn phases_of_requests() {
    assert_eq!(Awaiting::Connect.phase(), Phase::Bootstrapping);
    assert_eq!(Awaiting::Listing(Criteria::All).phase(), Phase::Bootstrapping);
    assert_eq!(Awaiting::Listing(Criteria::Unseen).phase(), Phase::Polling);
    assert_eq!(Awaiting::Tick.phase(), Phase::Polling);
    assert_eq!(Awaiting::Keepalive.phase(), Phase::Polling);
    assert_eq!(Awaiting::Fetch(1).phase(), Phase::Polling);
    assert_eq!(Awaiting::Notify(1).phase(), Phase::Polling);
    assert_eq!(Awaiting::Reconnect.phase(), Phase::Recovering);
    assert_eq!(Awaiting::Cooldown.phase(), Phase::Recovering);
    assert_eq!(Awaiting::Nothing.phase(), Phase::Terminated);
}

#[test]
fn protocol_constants() {
    assert_eq!(POLL_INTERVAL_SECS, 30);
    assert_eq!(RECONNECT_COOLDOWN_SECS, 60);
    assert_eq!(Criteria::All.keyword(), "ALL");
    assert_eq!(Criteria::Unseen.keyword(), "UNSEEN");
    assert_eq!(FETCH_QUERY, "(ENVELOPE BODY[HEADER.FIELDS (DATE)])");
}

/// Drives the controller with doubles of the mailbox and of the notifier.
/// `answer` plays the outside world; the requests are recorded, and at every
/// notification the double looks whether the message is in the seen-set.
fn drive(
    c: &mut Controller,
    first: Action,
    steps: usize,
    mut answer: impl FnMut(&Action, usize) -> Event,
) -> Vec<Action> {
    let mut log = Vec::new();
    let mut action = first;
    for n in 0..steps {
        if let Action::Notify { uid, .. } = &action {
            assert!(c.has_seen(*uid), "message {uid} is notified before it is marked");
        }
        if let Action::Fetch(uid) = &action {
            assert!(c.has_seen(*uid), "message {uid} is fetched before it is marked");
        }
        let event = answer(&action, n);
        log.push(action);
        action = c.step(event).unwrap();
    }
    log.push(action);
    log
}

#[test]
fn reconnect_is_asked_once_before_the_next_listing() {
    let (mut c, first) = Controller::start();
    let mut probes = 0;
    let log = drive(&mut c, first, 12, |action, _| match action {
        Action::Connect | Action::Reconnect => Event::Connected,
        Action::List(Criteria::All) => Event::Listed(vec![1, 2]),
        Action::List(Criteria::Unseen) => Event::Listed(vec![2]),
        Action::AwaitTick { .. } => Event::Ticked,
        Action::Keepalive => {
            probes += 1;
            if probes == 1 {
                failed("connection reset")
            } else {
                Event::KeptAlive
            }
        }
        Action::Cooldown { .. } => Event::Rested,
        other => panic!("not asked for in this run: {other:?}"),
    });
    let failure = log.iter().position(|a| *a == Action::Keepalive).unwrap();
    let listing = log.iter().position(|a| *a == Action::List(Criteria::Unseen)).unwrap();
    assert!(failure < listing);
    let between = &log[failure + 1..listing];
    assert_eq!(between.iter().filter(|a| **a == Action::Reconnect).count(), 1);
    assert_eq!(between[0], Action::Reconnect);
    assert_eq!(log.iter().filter(|a| **a == Action::Reconnect).count(), 1);
}

#[test]
fn every_message_is_marked_before_its_notification_goes_out() {
    let (mut c, first) = Controller::start();
    let mut cycle = 0u32;
    let log = drive(&mut c, first, 40, |action, n| match action {
        Action::Connect | Action::Reconnect => Event::Connected,
        Action::List(Criteria::All) => Event::Listed(vec![1, 2, 3]),
        Action::List(Criteria::Unseen) => {
            cycle += 1;
            Event::Listed(vec![3, 10 * cycle, 10 * cycle + 1, 2, 10 * cycle])
        }
        Action::AwaitTick { .. } => Event::Ticked,
        Action::Keepalive => Event::KeptAlive,
        Action::Fetch(_) if n % 3 == 0 => failed("fetch failed"),
        Action::Fetch(_) => Event::Fetched(Fetched::Envelope(envelope())),
        Action::Notify { .. } if n % 2 == 0 => failed("delivery failed"),
        Action::Notify { .. } => Event::Delivered,
        Action::Cooldown { .. } => Event::Rested,
        Action::Abort => panic!("start-up cannot fail in this run"),
    });
    let fetched: Vec<u32> = log
        .iter()
        .filter_map(|a| match a {
            Action::Fetch(uid) => Some(*uid),
            _ => None,
        })
        .collect();
    assert!(fetched.len() >= 4);
    // new messages only, each once, in the order of the listings
    let mut expected = Vec::new();
    for k in 1..=(fetched.len() as u32 + 1) / 2 {
        expected.push(10 * k);
        expected.push(10 * k + 1);
    }
    expected.truncate(fetched.len());
    assert_eq!(fetched, expected);
    assert!(!log.iter().any(|a| *a == Action::Reconnect));
}
