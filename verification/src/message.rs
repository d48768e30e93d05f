//! Events pushed to the browser client and their wire encoding.
//!
//! On the wire an event is a JSON object with one member: the member's name is
//! the event's tag, its value the payload.

use vstd::prelude::*;
use vstd::string::*;

verus! {

/// Transport state of the browser-side player.
#[derive(Clone, Copy, Debug, PartialEq, Eq, Structural)]
pub enum PlaybackState {
    Playing,
    Paused,
    Stopped,
}

impl PlaybackState {
    /// The name under which the state travels on the wire.
    pub open spec fn name(self) -> Seq<char> {
        match self {
            PlaybackState::Playing => "Playing"@,
            PlaybackState::Paused => "Paused"@,
            PlaybackState::Stopped => "Stopped"@,
        }
    }

    /// Returns the wire name of the state.
    pub fn as_str(self) -> (name: &'static str)
        ensures
            name@ == self.name(),
    {
        match self {
            PlaybackState::Playing => "Playing",
            PlaybackState::Paused => "Paused",
            PlaybackState::Stopped => "Stopped",
        }
    }
}

/// An event sent to a browser session.
#[derive(Debug)]
pub enum SocketMessage {
    /// Greeting, sent once to a session when it connects.
    Message(String),
    /// The program the client is to run from now on.
    Code(String),
    /// A transport command.
    Playback(PlaybackState),
    /// A human-readable report, such as a notice that events were dropped.
    Error(String),
}

/// The mathematical value of a [`SocketMessage`].
pub enum MessageView {
    Message(Seq<char>),
    Code(Seq<char>),
    Playback(PlaybackState),
    Error(Seq<char>),
}

impl View for SocketMessage {
    type V = MessageView;

    open spec fn view(&self) -> MessageView {
        match self {
            SocketMessage::Message(text) => MessageView::Message(text@),
            SocketMessage::Code(text) => MessageView::Code(text@),
            SocketMessage::Playback(state) => MessageView::Playback(*state),
            SocketMessage::Error(text) => MessageView::Error(text@),
        }
    }
}

impl Clone for SocketMessage {
    fn clone(&self) -> (copy: Self)
        ensures
            copy@ == self@,
    {
        match self {
            SocketMessage::Message(text) => SocketMessage::Message(text.clone()),
            SocketMessage::Code(text) => SocketMessage::Code(text.clone()),
            SocketMessage::Playback(state) => SocketMessage::Playback(*state),
            SocketMessage::Error(text) => SocketMessage::Error(text.clone()),
        }
    }
}

impl PartialEq for SocketMessage {
    fn eq(&self, other: &Self) -> (equal: bool) {
        match (self, other) {
            (SocketMessage::Message(a), SocketMessage::Message(b)) => a.eq(b),
            (SocketMessage::Code(a), SocketMessage::Code(b)) => a.eq(b),
            (SocketMessage::Playback(a), SocketMessage::Playback(b)) => *a == *b,
            (SocketMessage::Error(a), SocketMessage::Error(b)) => a.eq(b),
            _ => false,
        }
    }
}

impl vstd::std_specs::cmp::PartialEqSpecImpl for SocketMessage {
    open spec fn obeys_eq_spec() -> bool {
        true
    }

    open spec fn eq_spec(&self, other: &Self) -> bool {
        self@ == other@
    }
}

/// The error type of `serde_json`.
#[verifier::external_type_specification]
#[verifier::external_body]
pub struct ExJsonError(serde_json::Error);

/// The JSON string literal, quotes and escapes included, that `serde_json`
/// writes for `text`; `None` where it reports an error instead, which it
/// does for no text.
pub uninterp spec fn json_string(text: Seq<char>) -> Option<Seq<char>>;

/// Serialises a string slice with `serde_json::to_string`.
///
/// Not proved: that the call succeeds on every text (the literal is written
/// into a byte vector in memory, which takes whatever it is given), and that
/// the literal is a function of the characters of `text` alone, which is
/// what giving it the name [`json_string`] claims. Nothing is claimed about
/// what the literal looks like.
#[verifier::external_body]
fn json_quote(text: &str) -> (literal: Result<String, serde_json::Error>)
    ensures
        literal is Ok,
        literal matches Ok(quoted) ==> json_string(text@) == Some(quoted@),
{
    serde_json::to_string(text)
}

/// The JSON string literal for `text`, which the JSON library produces for
/// every text.
pub fn literal_of(text: &str) -> (literal: Option<String>)
    ensures
        literal is Some,
        literal.deep_view() == json_string(text@),
{
    match json_quote(text) {
        Ok(quoted) => Some(quoted),
        Err(_) => None,
    }
}

/// The text of a frame: a JSON object whose only member is named `tag` and
/// has the value `payload`, written without white space. Where there is no
/// payload, the frame is `fallback`.
pub open spec fn frame_text(tag: Seq<char>, payload: Option<Seq<char>>, fallback: Seq<char>) -> Seq<
    char,
> {
    match payload {
        Some(value) => seq!['{', '"'] + tag + seq!['"', ':'] + value + seq!['}'],
        None => fallback,
    }
}

impl MessageView {
    /// The tag that tells the four kinds of event apart on the wire.
    pub open spec fn tag(self) -> Seq<char> {
        match self {
            MessageView::Message(_) => "Message"@,
            MessageView::Code(_) => "Code"@,
            MessageView::Playback(_) => "Playback"@,
            MessageView::Error(_) => "Error"@,
        }
    }

    /// The payload as JSON text: the string literal of a text payload, the
    /// quoted name of a playback state.
    pub open spec fn payload(self) -> Option<Seq<char>> {
        match self {
            MessageView::Message(text) => json_string(text),
            MessageView::Code(text) => json_string(text),
            MessageView::Playback(state) => Some(seq!['"'] + state.name() + seq!['"']),
            MessageView::Error(text) => json_string(text),
        }
    }

    /// The frame that carries the event, or `fallback` where the payload
    /// cannot be serialised.
    pub open spec fn wire_text(self, fallback: Seq<char>) -> Seq<char> {
        frame_text(self.tag(), self.payload(), fallback)
    }
}

/// Builds the frame for a tag and an already serialised payload; hands out
/// `fallback` where the payload is missing.
pub fn frame(tag: &str, payload: Option<String>, fallback: &str) -> (text: String)
    ensures
        text@ == frame_text(tag@, payload.deep_view(), fallback@),
{
    match payload {
        Some(value) => {
            proof {
                reveal_strlit("{\"");
                reveal_strlit("\":");
                reveal_strlit("}");
            }
            let mut text = String::from_str("{\"");
            text.append(tag);
            text.append("\":");
            text.append(value.as_str());
            text.append("}");
            text
        },
        None => String::from_str(fallback),
    }
}

impl SocketMessage {
    /// Returns the event's wire tag.
    pub fn tag(&self) -> (tag: &'static str)
        ensures
            tag@ == self@.tag(),
    {
        match self {
            SocketMessage::Message(_) => "Message",
            SocketMessage::Code(_) => "Code",
            SocketMessage::Playback(_) => "Playback",
            SocketMessage::Error(_) => "Error",
        }
    }

    /// Serialises the payload, which succeeds for every event.
    pub fn payload(&self) -> (payload: Option<String>)
        ensures
            payload is Some,
            payload.deep_view() == self@.payload(),
    {
        match self {
            SocketMessage::Message(text) => literal_of(text.as_str()),
            SocketMessage::Code(text) => literal_of(text.as_str()),
            SocketMessage::Playback(state) => {
                proof {
                    reveal_strlit("\"");
                }
                let mut quoted = String::from_str("\"");
                quoted.append(state.as_str());
                quoted.append("\"");
                Some(quoted)
            },
            SocketMessage::Error(text) => literal_of(text.as_str()),
        }
    }

    /// Encodes the event as the text of one frame. A payload that cannot be
    /// serialised would not fail the call: the frame would then be
    /// `fallback`. No event has such a payload, so the frame is always the
    /// object.
    pub fn encode(&self, fallback: &str) -> (text: String)
        ensures
            self@.payload() is Some,
            text@ == self@.wire_text(fallback@),
    {
        frame(self.tag(), self.payload(), fallback)
    }
}

} // verus!
