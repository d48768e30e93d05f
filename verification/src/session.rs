//! The relay that serves one connected browser client.
//!
//! A session greets its client, then turns whatever its subscription to the
//! broadcast channel delivers into frames, one for one and in order, until
//! the channel reports that it is closed.

use crate::message::{MessageView, SocketMessage};
use crate::text::{decimal_digits, push_decimal};
use vstd::prelude::*;
use vstd::string::*;

verus! {

/// What one receive on a session's subscription can deliver.
#[derive(Debug)]
pub enum Received {
    /// The next event in publish order.
    Event(SocketMessage),
    /// The subscription fell behind and this many events were dropped.
    Lagged(u64),
    /// Every publisher is gone; nothing more will arrive.
    Closed,
}

/// The mathematical value of a [`Received`].
pub enum ReceivedView {
    Event(MessageView),
    Lagged(u64),
    Closed,
}

impl View for Received {
    type V = ReceivedView;

    open spec fn view(&self) -> ReceivedView {
        match self {
            Received::Event(message) => ReceivedView::Event(message@),
            Received::Lagged(missed) => ReceivedView::Lagged(*missed),
            Received::Closed => ReceivedView::Closed,
        }
    }
}

/// What the connection is to do after a receive.
#[derive(Debug)]
pub enum Relay {
    /// Send this text frame to the client and go on receiving.
    Send(String),
    /// End the relay and close the connection.
    Close,
}

/// The mathematical value of a [`Relay`].
pub enum RelayView {
    Send(Seq<char>),
    Close,
}

impl View for Relay {
    type V = RelayView;

    open spec fn view(&self) -> RelayView {
        match self {
            Relay::Send(text) => RelayView::Send(text@),
            Relay::Close => RelayView::Close,
        }
    }
}

/// The frame sent in place of a greeting that cannot be serialised.
pub open spec fn greeting_fallback() -> Seq<char> {
    "message failed to deserialize"@
}

/// The frame sent in place of a relayed event that cannot be serialised.
pub open spec fn relay_fallback() -> Seq<char> {
    "failed to serialize"@
}

/// The greeting every session starts with.
pub open spec fn greeting_view() -> MessageView {
    MessageView::Message("hello"@)
}

/// The first frame of every session.
pub open spec fn greeting_frame() -> Seq<char> {
    greeting_view().wire_text(greeting_fallback())
}

/// The report that tells a client that `missed` events were dropped.
pub open spec fn lag_notice_view(missed: u64) -> MessageView {
    MessageView::Error("broadcast lagged by "@ + decimal_digits(missed as nat) + " messages"@)
}

impl ReceivedView {
    /// The frame that answers to a delivery; `None` for the end of the
    /// channel, which is relayed by closing the connection.
    pub open spec fn frame(self) -> Option<Seq<char>> {
        match self {
            ReceivedView::Event(message) => Some(message.wire_text(relay_fallback())),
            ReceivedView::Lagged(missed) => Some(
                lag_notice_view(missed).wire_text(relay_fallback()),
            ),
            ReceivedView::Closed => None,
        }
    }
}

/// What a session does with a delivery: a closed session sends nothing more.
pub open spec fn relay_action(closed: bool, received: ReceivedView) -> RelayView {
    if closed {
        RelayView::Close
    } else {
        match received.frame() {
            Some(text) => RelayView::Send(text),
            None => RelayView::Close,
        }
    }
}

/// Whether a session is closed after a delivery.
pub open spec fn closed_after(closed: bool, received: ReceivedView) -> bool {
    closed || received is Closed
}

/// The frames a session sends, in order, while it is handed `feed` one
/// delivery after the other.
pub open spec fn sent(closed: bool, feed: Seq<ReceivedView>) -> Seq<Seq<char>>
    decreases feed.len(),
{
    if feed.len() == 0 {
        Seq::empty()
    } else {
        let rest = sent(closed_after(closed, feed[0]), feed.drop_first());
        match relay_action(closed, feed[0]) {
            RelayView::Send(text) => seq![text] + rest,
            RelayView::Close => rest,
        }
    }
}

/// The number of deliveries before the first `Closed` in `feed`.
pub open spec fn open_len(feed: Seq<ReceivedView>) -> nat
    decreases feed.len(),
{
    if feed.len() == 0 || feed[0] is Closed {
        0
    } else {
        1 + open_len(feed.drop_first())
    }
}

/// Builds the greeting.
pub fn greeting() -> (message: SocketMessage)
    ensures
        message@ == greeting_view(),
{
    SocketMessage::Message(String::from_str("hello"))
}

/// Builds the report of `missed` dropped events.
pub fn lag_notice(missed: u64) -> (message: SocketMessage)
    ensures
        message@ == lag_notice_view(missed),
{
    let mut text = String::from_str("broadcast lagged by ");
    push_decimal(&mut text, missed);
    text.append(" messages");
    SocketMessage::Error(text)
}

/// The state of one session's relay.
#[derive(Debug)]
pub struct Session {
    closed: bool,
}

impl Session {
    /// Whether the relay has ended.
    pub closed spec fn closed(&self) -> bool {
        self.closed
    }

    /// Starts a session: hands out its state and the greeting frame, which
    /// goes to the new client alone and before anything else.
    pub fn open() -> (start: (Session, String))
        ensures
            !start.0.closed(),
            start.1@ == greeting_frame(),
    {
        let text = greeting().encode("message failed to deserialize");
        (Session { closed: false }, text)
    }

    /// Returns whether the relay has ended.
    pub fn is_closed(&self) -> (closed: bool)
        ensures
            closed == self.closed(),
    {
        self.closed
    }

    /// Decides what to do with one delivery from the subscription.
    pub fn relay(&mut self, received: Received) -> (action: Relay)
        ensures
            action@ == relay_action(old(self).closed(), received@),
            final(self).closed() == closed_after(old(self).closed(), received@),
    {
        if self.closed {
            return Relay::Close;
        }
        match received {
            Received::Event(message) => Relay::Send(message.encode("failed to serialize")),
            Received::Lagged(missed) => Relay::Send(lag_notice(missed).encode("failed to serialize")),
            Received::Closed => {
                self.closed = true;
                Relay::Close
            },
        }
    }
}

/// Whether the channel stays open throughout `feed`.
pub open spec fn stays_open(feed: Seq<ReceivedView>) -> bool {
    forall|i: int| 0 <= i < feed.len() ==> !(#[trigger] feed[i] is Closed)
}

/// Everything a client is sent when its session is handed `feed`: the
/// greeting, then the relayed frames.
pub open spec fn transcript(feed: Seq<ReceivedView>) -> Seq<Seq<char>> {
    seq![greeting_frame()] + sent(false, feed)
}

/// A closed session sends nothing, whatever it is handed.
pub proof fn lemma_closed_session_is_silent(feed: Seq<ReceivedView>)
    ensures
        sent(true, feed) == Seq::<Seq<char>>::empty(),
    decreases feed.len(),
{
    if feed.len() > 0 {
        lemma_closed_session_is_silent(feed.drop_first());
    }
}

/// An open session sends one frame for each delivery before the channel
/// closes, the frame of that delivery, at the delivery's own place in the
/// order; and nothing else.
pub proof fn lemma_relay_is_one_for_one(feed: Seq<ReceivedView>)
    ensures
        open_len(feed) <= feed.len(),
        stays_open(feed) ==> open_len(feed) == feed.len(),
        sent(false, feed).len() == open_len(feed),
        forall|i: int|
            0 <= i < open_len(feed) ==> feed[i].frame() == Some(#[trigger] sent(false, feed)[i]),
    decreases feed.len(),
{
    if feed.len() == 0 {
    } else if feed[0] is Closed {
        lemma_closed_session_is_silent(feed.drop_first());
    } else {
        let rest = feed.drop_first();
        lemma_relay_is_one_for_one(rest);
        if stays_open(feed) {
            assert(stays_open(rest)) by {
                assert forall|i: int| 0 <= i < rest.len() implies !(#[trigger] rest[i] is Closed) by {
                    assert(rest[i] == feed[i + 1]);
                }
            }
        }
        assert forall|i: int| 0 <= i < open_len(feed) implies feed[i].frame() == Some(
            #[trigger] sent(false, feed)[i],
        ) by {
            if i > 0 {
                assert(feed[i] == rest[i - 1]);
                assert(sent(false, feed)[i] == sent(false, rest)[i - 1]);
            }
        }
    }
}

/// Relaying two feeds one after the other, the first of which leaves the
/// channel open, sends the frames of the first and then those of the second.
pub proof fn lemma_relay_in_parts(before: Seq<ReceivedView>, after: Seq<ReceivedView>)
    requires
        stays_open(before),
    ensures
        sent(false, before + after) == sent(false, before) + sent(false, after),
    decreases before.len(),
{
    if before.len() == 0 {
        assert(before + after =~= after);
    } else {
        let rest = before.drop_first();
        assert(stays_open(rest)) by {
            assert forall|i: int| 0 <= i < rest.len() implies !(#[trigger] rest[i] is Closed) by {
                assert(rest[i] == before[i + 1]);
            }
        }
        lemma_relay_in_parts(rest, after);
        assert((before + after).drop_first() =~= rest + after);
    }
}

/// What a client is sent starts with the greeting, and every frame after it
/// answers to a delivery of the session's own subscription, in the order of
/// delivery. Nothing that was published before the session subscribed can
/// reach the client: the session has no other source.
pub proof fn lemma_greeting_then_own_feed(feed: Seq<ReceivedView>)
    ensures
        transcript(feed).len() == 1 + open_len(feed),
        transcript(feed)[0] == greeting_frame(),
        forall|i: int|
            1 <= i < transcript(feed).len() ==> feed[i - 1].frame() == Some(
                #[trigger] transcript(feed)[i],
            ),
{
    lemma_relay_is_one_for_one(feed);
    assert forall|i: int| 1 <= i < transcript(feed).len() implies feed[i - 1].frame() == Some(
        #[trigger] transcript(feed)[i],
    ) by {
        assert(transcript(feed)[i] == sent(false, feed)[i - 1]);
    }
}

/// An event that the subscription delivers while the channel is open is
/// relayed exactly once, between the frames of what was delivered before it
/// and after it. Sessions that are delivered the same events in the same
/// order therefore send the same frames in the same order.
pub proof fn lemma_event_relayed_once_in_order(
    before: Seq<ReceivedView>,
    event: MessageView,
    after: Seq<ReceivedView>,
)
    requires
        stays_open(before),
    ensures
        sent(false, before + seq![ReceivedView::Event(event)] + after) == sent(false, before)
            + seq![event.wire_text(relay_fallback())] + sent(false, after),
{
    let one = seq![ReceivedView::Event(event)];
    lemma_relay_in_parts(one, after);
    lemma_relay_in_parts(before, one + after);
    assert(before + one + after =~= before + (one + after));
    assert(sent(false, one.drop_first()) =~= Seq::<Seq<char>>::empty());
}

/// A lag report from the subscription is relayed as exactly one notice that
/// carries the number of dropped events, after which delivery goes on as
/// before; no frame is sent twice.
pub proof fn lemma_lag_reported_once(
    before: Seq<ReceivedView>,
    missed: u64,
    after: Seq<ReceivedView>,
)
    requires
        stays_open(before),
    ensures
        sent(false, before + seq![ReceivedView::Lagged(missed)] + after) == sent(false, before)
            + seq![lag_notice_view(missed).wire_text(relay_fallback())] + sent(false, after),
{
    let one = seq![ReceivedView::Lagged(missed)];
    lemma_relay_in_parts(one, after);
    lemma_relay_in_parts(before, one + after);
    assert(before + one + after =~= before + (one + after));
    assert(sent(false, one.drop_first()) =~= Seq::<Seq<char>>::empty());
}

/// Once the subscription reports that the channel is closed, the session
/// sends nothing more, whatever it is handed afterwards.
pub proof fn lemma_session_ends_with_channel(before: Seq<ReceivedView>, after: Seq<ReceivedView>)
    ensures
        sent(false, before + seq![ReceivedView::Closed] + after) == sent(false, before),
    decreases before.len(),
{
    let feed = before + seq![ReceivedView::Closed] + after;
    if before.len() == 0 {
        lemma_closed_session_is_silent(feed.drop_first());
    } else if before[0] is Closed {
        lemma_closed_session_is_silent(feed.drop_first());
        lemma_closed_session_is_silent(before.drop_first());
    } else {
        let rest = before.drop_first();
        lemma_session_ends_with_channel(rest, after);
        assert(feed.drop_first() =~= rest + seq![ReceivedView::Closed] + after);
    }
}

} // verus!
