//! The commands that the host issues from its own thread.
//!
//! A command turns into one send on the control channel or one publish on
//! the broadcast channel, and blocks for at most one reply. The requests are
//! made here and the outcomes are read here; what the host tells its user
//! afterwards is decided here too, as a [`Notice`]. The send and the wait
//! that block the host's thread are the host's own to make.

use crate::app::AppMessage;
use crate::channel::{broadcast_send, reply_slot};
use crate::lifecycle::ControlEvent;
use crate::message::{MessageView, PlaybackState, SocketMessage};
use crate::text::{decimal, decimal_digits, join_lines, joined, push_decimal};
use tokio::sync::{broadcast, mpsc, oneshot};
use vstd::prelude::*;
use vstd::string::*;

verus! {

/// Why a command on the control channel failed.
#[derive(Clone, Copy, Debug, PartialEq, Eq, Structural)]
pub enum CommandError {
    /// The server's end of the control channel is gone.
    ChannelClosed,
    /// The request was queued, but the server dropped it unanswered.
    NoReply,
}

/// What the host tells its user after a command.
#[derive(Clone, Copy, Debug, PartialEq, Eq, Structural)]
pub enum Notice {
    /// The port the server listens on.
    Port(u16),
    /// The port could not be had.
    PortUnavailable,
    /// The quit request could not be queued.
    QuitFailed,
    /// The server is gone, so there is nothing to open.
    ServerGone,
    /// A server is running already; no second one is started.
    AlreadyRunning,
    /// The editor's current buffer could not be read.
    BufferUnavailable,
}

impl Notice {
    /// The words of the notice.
    pub open spec fn words(self) -> Seq<char> {
        match self {
            Notice::Port(port) => decimal_digits(port as nat),
            Notice::PortUnavailable => "couldn't get port"@,
            Notice::QuitFailed => "failed to quit server"@,
            Notice::ServerGone => "strudel server rx dropped"@,
            Notice::AlreadyRunning => "strudel already running"@,
            Notice::BufferUnavailable => "couldn't get the current buffer"@,
        }
    }

    /// Renders the notice.
    pub fn text(&self) -> (text: String)
        ensures
            text@ == self.words(),
    {
        match self {
            Notice::Port(port) => decimal(*port as u64),
            Notice::PortUnavailable => String::from_str("couldn't get port"),
            Notice::QuitFailed => String::from_str("failed to quit server"),
            Notice::ServerGone => String::from_str("strudel server rx dropped"),
            Notice::AlreadyRunning => String::from_str("strudel already running"),
            Notice::BufferUnavailable => String::from_str("couldn't get the current buffer"),
        }
    }
}

/// What the host does when asked to open the client in a browser.
#[derive(Debug)]
pub enum Browse {
    /// Hand this address to the system's default browser.
    Open(String),
    /// Open nothing and tell the user why.
    Report(Notice),
    /// Open nothing and say nothing.
    Nothing,
}

/// The mathematical value of a [`Browse`].
pub enum BrowseView {
    Open(Seq<char>),
    Report(Notice),
    Nothing,
}

impl View for Browse {
    type V = BrowseView;

    open spec fn view(&self) -> BrowseView {
        match self {
            Browse::Open(address) => BrowseView::Open(address@),
            Browse::Report(notice) => BrowseView::Report(*notice),
            Browse::Nothing => BrowseView::Nothing,
        }
    }
}

/// The address of the client that a server on `port` serves.
pub open spec fn client_address(port: u16) -> Seq<char> {
    "http://localhost:"@ + decimal_digits(port as nat)
}

/// Builds the address of the client that a server on `port` serves.
pub fn client_url(port: u16) -> (address: String)
    ensures
        address@ == client_address(port),
{
    let mut address = String::from_str("http://localhost:");
    push_decimal(&mut address, port as u64);
    address
}

/// The notice for the outcome of a port query: the port where the server
/// gave one, and one and the same regret in every other case.
pub fn port_notice(outcome: Result<Option<u16>, CommandError>) -> (notice: Notice)
    ensures
        notice == match outcome {
            Ok(Some(port)) => Notice::Port(port),
            _ => Notice::PortUnavailable,
        },
{
    match outcome {
        Ok(Some(port)) => Notice::Port(port),
        _ => Notice::PortUnavailable,
    }
}

/// The notice for the outcome of a quit: none where the request was queued.
pub fn quit_notice(outcome: Result<(), CommandError>) -> (notice: Option<Notice>)
    ensures
        notice == match outcome {
            Ok(_) => None::<Notice>,
            Err(_) => Some(Notice::QuitFailed),
        },
{
    match outcome {
        Ok(_) => None,
        Err(_) => Some(Notice::QuitFailed),
    }
}

/// What to do about opening the browser, given the outcome of the port
/// query that comes first: open the client's address where a port is known,
/// report a closed channel, and do nothing where the server did not say.
pub fn open_plan(outcome: Result<Option<u16>, CommandError>) -> (plan: Browse)
    ensures
        plan@ == match outcome {
            Ok(Some(port)) => BrowseView::Open(client_address(port)),
            Err(CommandError::ChannelClosed) => BrowseView::Report(Notice::ServerGone),
            _ => BrowseView::Nothing,
        },
{
    match outcome {
        Ok(Some(port)) => Browse::Open(client_url(port)),
        Err(CommandError::ChannelClosed) => Browse::Report(Notice::ServerGone),
        _ => Browse::Nothing,
    }
}

/// Whether a start command goes ahead, given the host's "running" flag as
/// far as it could be read: only a flag that is known to be set refuses.
pub fn start_refusal(running: Option<bool>) -> (refusal: Option<Notice>)
    ensures
        refusal == if running == Some(true) {
            Some(Notice::AlreadyRunning)
        } else {
            None::<Notice>
        },
{
    match running {
        Some(true) => Some(Notice::AlreadyRunning),
        _ => None,
    }
}

/// What the caller learns from the attempt to queue a request: the control
/// channel refuses a request only when the server's end of it is gone.
pub fn queued(sent: Result<(), mpsc::error::SendError<AppMessage>>) -> (outcome: Result<
    (),
    CommandError,
>)
    ensures
        outcome == match sent {
            Ok(_) => Ok::<(), CommandError>(()),
            Err(_) => Err::<(), CommandError>(CommandError::ChannelClosed),
        },
{
    match sent {
        Ok(_) => Ok(()),
        Err(_) => Err(CommandError::ChannelClosed),
    }
}

/// What the caller learns from the wait on its reply slot: the server's
/// answer, or that the server dropped the request unanswered.
pub fn replied(reply: Result<Option<u16>, oneshot::error::RecvError>) -> (outcome: Result<
    Option<u16>,
    CommandError,
>)
    ensures
        outcome == match reply {
            Ok(port) => Ok::<Option<u16>, CommandError>(port),
            Err(_) => Err::<Option<u16>, CommandError>(CommandError::NoReply),
        },
{
    match reply {
        Ok(port) => Ok(port),
        Err(_) => Err(CommandError::NoReply),
    }
}

/// Makes the request that asks the server to stop.
pub fn quit_request() -> (request: AppMessage)
    ensures
        request.event() == ControlEvent::Quit,
{
    AppMessage::Quit
}

/// Makes the request that asks the server for its port, with a fresh reply
/// slot: the request carries the half that takes the answer, the caller
/// keeps the half on which to wait for it.
pub fn port_request() -> (parts: (AppMessage, oneshot::Receiver<Option<u16>>))
    ensures
        parts.0.event() == ControlEvent::GetPort,
{
    let (slot, reply) = reply_slot();
    (AppMessage::GetPort(slot), reply)
}

/// What becomes of an update of the code, given the lines of the editor's
/// buffer as far as they could be read: the text to publish, which is the
/// lines joined, or the notice that the buffer could not be had.
pub fn code_update(lines: Option<Vec<String>>) -> (outcome: Result<String, Notice>)
    ensures
        match lines {
            Some(read) => outcome matches Ok(code) && code@ == joined(read.deep_view()),
            None => outcome matches Err(notice) && notice == Notice::BufferUnavailable,
        },
{
    match lines {
        Some(read) => Ok(join_lines(&read)),
        None => Err(Notice::BufferUnavailable),
    }
}

/// The words that tell the user that the server could not start, and why.
pub open spec fn start_failure_words(reason: Seq<char>) -> Seq<char> {
    "strudel failed to start: "@ + reason
}

/// What the host tells its user about a start it has waited for, given the
/// server thread's report as far as one came: nothing where the server is
/// up, the thread's own reason where it gave up, and a reason of the host's
/// where the thread ended without a word.
pub fn start_report(report: Option<Result<(), String>>) -> (text: Option<String>)
    ensures
        text.deep_view() == match report {
            Some(Ok(_)) => None::<Seq<char>>,
            Some(Err(reason)) => Some(start_failure_words(reason@)),
            None => Some(start_failure_words("the server thread ended without a report"@)),
        },
{
    match report {
        Some(Ok(_)) => None,
        Some(Err(reason)) => {
            let mut text = String::from_str("strudel failed to start: ");
            text.append(reason.as_str());
            Some(text)
        },
        None => {
            let mut text = String::from_str("strudel failed to start: ");
            text.append("the server thread ended without a report");
            Some(text)
        },
    }
}

/// Makes the event that tells a client to start playback.
pub fn play_event() -> (event: SocketMessage)
    ensures
        event@ == MessageView::Playback(PlaybackState::Playing),
{
    SocketMessage::Playback(PlaybackState::Playing)
}

/// Makes the event that tells a client to pause playback.
pub fn pause_event() -> (event: SocketMessage)
    ensures
        event@ == MessageView::Playback(PlaybackState::Paused),
{
    SocketMessage::Playback(PlaybackState::Paused)
}

/// Makes the event that tells a client to stop playback.
pub fn stop_event() -> (event: SocketMessage)
    ensures
        event@ == MessageView::Playback(PlaybackState::Stopped),
{
    SocketMessage::Playback(PlaybackState::Stopped)
}

/// Makes the event that replaces the program a client runs with `code`.
pub fn code_event(code: String) -> (event: SocketMessage)
    ensures
        event@ == MessageView::Code(code@),
{
    SocketMessage::Code(code)
}

/// Publishes an event to every session that is subscribed at this moment.
///
/// Only code and transport commands are published: a greeting goes to one
/// session alone, and a lag notice is made by the session that lagged.
/// Never blocks. `Ok` carries the number of subscribers, at least one; where
/// there is none the event comes back in `Err`, which a caller is free to
/// ignore.
pub fn publish(publisher: &broadcast::Sender<SocketMessage>, event: SocketMessage) -> (outcome:
    Result<usize, SocketMessage>)
    requires
        event@ is Code || event@ is Playback,
    ensures
        outcome matches Ok(subscribers) ==> subscribers >= 1,
        outcome matches Err(returned) ==> returned@ == event@,
{
    broadcast_send(publisher, event)
}

/// Tells every session to start playback: publishes [`play_event`].
pub fn play(publisher: &broadcast::Sender<SocketMessage>) -> (outcome: Result<usize, SocketMessage>)
    ensures
        outcome matches Ok(subscribers) ==> subscribers >= 1,
        outcome matches Err(returned) ==> returned@ == MessageView::Playback(
            PlaybackState::Playing,
        ),
{
    publish(publisher, play_event())
}

/// Tells every session to pause playback: publishes [`pause_event`].
pub fn pause(publisher: &broadcast::Sender<SocketMessage>) -> (outcome: Result<usize, SocketMessage>)
    ensures
        outcome matches Ok(subscribers) ==> subscribers >= 1,
        outcome matches Err(returned) ==> returned@ == MessageView::Playback(PlaybackState::Paused),
{
    publish(publisher, pause_event())
}

/// Tells every session to stop playback: publishes [`stop_event`].
pub fn stop(publisher: &broadcast::Sender<SocketMessage>) -> (outcome: Result<usize, SocketMessage>)
    ensures
        outcome matches Ok(subscribers) ==> subscribers >= 1,
        outcome matches Err(returned) ==> returned@ == MessageView::Playback(
            PlaybackState::Stopped,
        ),
{
    publish(publisher, stop_event())
}

/// Replaces the program that the sessions run: publishes [`code_event`].
pub fn update_code(publisher: &broadcast::Sender<SocketMessage>, code: String) -> (outcome: Result<
    usize,
    SocketMessage,
>)
    ensures
        outcome matches Ok(subscribers) ==> subscribers >= 1,
        outcome matches Err(returned) ==> returned@ == MessageView::Code(code@),
{
    publish(publisher, code_event(code))
}

} // verus!
