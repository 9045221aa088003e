//! The vocabulary between the controller and whoever drives it: what the
//! controller asks for, and what it is told in return.

use crate::envelope::{blank_envelope, RawEnvelope, RawEnvelopeView};
use crate::text::{decimal, push_decimal};
use vstd::prelude::*;

verus! {

/// Seconds between two polls of the mailbox.
pub const POLL_INTERVAL_SECS: u64 = 30;

/// Seconds to rest after a failed attempt to rebuild the session.
pub const RECONNECT_COOLDOWN_SECS: u64 = 60;

/// What a fetch asks the server for: the envelope, and the date header.
pub const FETCH_QUERY: &'static str = "(ENVELOPE BODY[HEADER.FIELDS (DATE)])";

/// Which messages a listing asks the server for.
#[derive(Clone, Copy, Debug, PartialEq, Eq, Structural)]
pub enum Criteria {
    /// Every message in the mailbox; asked once, at start-up.
    All,
    /// The messages the server holds as unread; asked every cycle.
    Unseen,
}

/// The coarse state of the controller.
#[derive(Clone, Copy, Debug, PartialEq, Eq, Structural)]
pub enum Phase {
    Bootstrapping,
    Polling,
    Recovering,
    Terminated,
}

/// The request that is under way: the controller has asked for it and has
/// not yet been told how it went.
#[derive(Clone, Copy, Debug, PartialEq, Eq, Structural)]
pub enum Awaiting {
    /// The first session is being opened.
    Connect,
    /// A listing is being made.
    Listing(Criteria),
    /// Nothing is under way until the timer fires.
    Tick,
    /// The session is being probed.
    Keepalive,
    /// The envelope of this message is being fetched.
    Fetch(u32),
    /// The notification for this message is being sent.
    Notify(u32),
    /// A new session is being opened in place of a broken one.
    Reconnect,
    /// The controller rests after a failed reconnect.
    Cooldown,
    /// Start-up failed; nothing will be asked again.
    Nothing,
}

/// What a fetch brought back.
#[derive(Clone, Debug, PartialEq, Eq)]
pub enum Fetched {
    /// The server returned no message for the identifier.
    Nothing,
    /// A message came back without an envelope: sender, subject and date
    /// are all missing.
    NoEnvelope,
    /// The envelope of the message.
    Envelope(RawEnvelope),
}

/// How the request under way ended.
#[derive(Clone, Debug, PartialEq, Eq)]
pub enum Event {
    /// A session was opened: authenticated, mailbox selected.
    Connected,
    /// The identifiers a listing returned, in the order received.
    Listed(Vec<u32>),
    /// The timer fired.
    Ticked,
    /// The session answered the probe.
    KeptAlive,
    /// The fetch returned.
    Fetched(Fetched),
    /// The notification was accepted by the messaging endpoint.
    Delivered,
    /// The cooldown is over.
    Rested,
    /// The request failed; the text describes the error.
    Failed(String),
}

/// What the controller asks for next.
#[derive(Clone, Debug, PartialEq, Eq)]
pub enum Action {
    /// Open the first session.
    Connect,
    /// List the identifiers that match.
    List(Criteria),
    /// Wait for the next tick of the timer that fires at this period.
    AwaitTick { period_secs: u64 },
    /// Probe the session.
    Keepalive,
    /// Fetch the envelope of this message.
    Fetch(u32),
    /// Send this text to the recipient.
    Notify { uid: u32, text: String },
    /// Discard the session and open a new one.
    Reconnect,
    /// Rest for this many seconds.
    Cooldown { secs: u64 },
    /// Give up: start-up failed.
    Abort,
}

pub enum FetchedView {
    Nothing,
    NoEnvelope,
    Envelope(RawEnvelopeView),
}

pub enum EventView {
    Connected,
    Listed(Seq<u32>),
    Ticked,
    KeptAlive,
    Fetched(FetchedView),
    Delivered,
    Rested,
    Failed(Seq<char>),
}

pub enum ActionView {
    Connect,
    List(Criteria),
    AwaitTick { period_secs: u64 },
    Keepalive,
    Fetch(u32),
    Notify { uid: u32, text: Seq<char> },
    Reconnect,
    Cooldown { secs: u64 },
    Abort,
}

impl View for Fetched {
    type V = FetchedView;

    open spec fn view(&self) -> FetchedView {
        match self {
            Fetched::Nothing => FetchedView::Nothing,
            Fetched::NoEnvelope => FetchedView::NoEnvelope,
            Fetched::Envelope(env) => FetchedView::Envelope(env@),
        }
    }
}

impl View for Event {
    type V = EventView;

    open spec fn view(&self) -> EventView {
        match self {
            Event::Connected => EventView::Connected,
            Event::Listed(ids) => EventView::Listed(ids@),
            Event::Ticked => EventView::Ticked,
            Event::KeptAlive => EventView::KeptAlive,
            Event::Fetched(f) => EventView::Fetched(f@),
            Event::Delivered => EventView::Delivered,
            Event::Rested => EventView::Rested,
            Event::Failed(d) => EventView::Failed(d@),
        }
    }
}

impl View for Action {
    type V = ActionView;

    open spec fn view(&self) -> ActionView {
        match self {
            Action::Connect => ActionView::Connect,
            Action::List(c) => ActionView::List(*c),
            Action::AwaitTick { period_secs } => ActionView::AwaitTick {
                period_secs: *period_secs,
            },
            Action::Keepalive => ActionView::Keepalive,
            Action::Fetch(uid) => ActionView::Fetch(*uid),
            Action::Notify { uid, text } => ActionView::Notify { uid: *uid, text: text@ },
            Action::Reconnect => ActionView::Reconnect,
            Action::Cooldown { secs } => ActionView::Cooldown { secs: *secs },
            Action::Abort => ActionView::Abort,
        }
    }
}

/// The envelope that a fetch leaves to write a notification from: the one
/// that came, a blank one for a message that came without, and none where
/// no message came.
pub open spec fn envelope_of(fetched: FetchedView) -> Option<RawEnvelopeView> {
    match fetched {
        FetchedView::Nothing => None,
        FetchedView::NoEnvelope => Some(blank_envelope()),
        FetchedView::Envelope(env) => Some(env),
    }
}

/// The phase that a request under way belongs to.
pub open spec fn phase_of(awaiting: Awaiting) -> Phase {
    match awaiting {
        Awaiting::Connect => Phase::Bootstrapping,
        Awaiting::Listing(Criteria::All) => Phase::Bootstrapping,
        Awaiting::Listing(Criteria::Unseen) => Phase::Polling,
        Awaiting::Tick => Phase::Polling,
        Awaiting::Keepalive => Phase::Polling,
        Awaiting::Fetch(_) => Phase::Polling,
        Awaiting::Notify(_) => Phase::Polling,
        Awaiting::Reconnect => Phase::Recovering,
        Awaiting::Cooldown => Phase::Recovering,
        Awaiting::Nothing => Phase::Terminated,
    }
}

impl Fetched {
    /// The envelope to write the notification from, if a message came.
    pub fn into_envelope(self) -> (env: Option<RawEnvelope>)
        ensures
            match envelope_of(self@) {
                Some(v) => env matches Some(e) && e@ == v,
                None => env is None,
            },
    {
        match self {
            Fetched::Nothing => None,
            Fetched::NoEnvelope => Some(RawEnvelope::blank()),
            Fetched::Envelope(env) => Some(env),
        }
    }
}

impl Criteria {
    /// The search key that the server understands.
    pub fn keyword(&self) -> (s: &'static str)
        ensures
            s@ == match *self {
                Criteria::All => "ALL"@,
                Criteria::Unseen => "UNSEEN"@,
            },
    {
        match self {
            Criteria::All => "ALL",
            Criteria::Unseen => "UNSEEN",
        }
    }
}

/// The message set of a fetch of one message: its identifier in decimal.
pub fn sequence_set(uid: u32) -> (s: String)
    ensures
        s@ == decimal(uid as nat),
{
    let mut s = String::new();
    push_decimal(&mut s, uid);
    assert(Seq::<char>::empty() + decimal(uid as nat) =~= decimal(uid as nat));
    s
}

impl Awaiting {
    /// The phase that this request belongs to.
    pub fn phase(&self) -> (p: Phase)
        ensures
            p == phase_of(*self),
    {
        match self {
            Awaiting::Connect => Phase::Bootstrapping,
            Awaiting::Listing(Criteria::All) => Phase::Bootstrapping,
            Awaiting::Listing(Criteria::Unseen) => Phase::Polling,
            Awaiting::Tick => Phase::Polling,
            Awaiting::Keepalive => Phase::Polling,
            Awaiting::Fetch(_) => Phase::Polling,
            Awaiting::Notify(_) => Phase::Polling,
            Awaiting::Reconnect => Phase::Recovering,
            Awaiting::Cooldown => Phase::Recovering,
            Awaiting::Nothing => Phase::Terminated,
        }
    }
}

} // verus!
