//! The server's side of the bridge: the owner of the channels and of the
//! lifecycle, and the handling of one control request.

use crate::channel::{
    clone_control, clone_publisher, control_channel, control_limit, event_channel, event_limit,
    fulfil, same_control_channel, same_event_channel,
};
use crate::lifecycle::{
    ControlAction, ControlEvent, Lifecycle, LifecycleError, LifecycleView, Phase,
};
use crate::message::SocketMessage;
use tokio::sync::{broadcast, mpsc, oneshot};
use vstd::prelude::*;

verus! {

/// Capacity of the control channel.
pub const CONTROL_CAPACITY: usize = 16;

/// Capacity of the broadcast channel.
pub const BROADCAST_CAPACITY: usize = 16;

/// A request on the control channel.
pub enum AppMessage {
    /// Asks for the port; the answer goes into the one-shot slot.
    GetPort(oneshot::Sender<Option<u16>>),
    /// Asks the server to stop.
    Quit,
}

impl AppMessage {
    /// The control event that the request stands for.
    pub open spec fn event(self) -> ControlEvent {
        match self {
            AppMessage::GetPort(_) => ControlEvent::GetPort,
            AppMessage::Quit => ControlEvent::Quit,
        }
    }
}

/// The control event that one receive on the control channel stands for:
/// `None` is the channel's report that every handle is gone.
pub open spec fn event_of(received: Option<AppMessage>) -> ControlEvent {
    match received {
        Some(request) => request.event(),
        None => ControlEvent::Closed,
    }
}

/// What handling one receive on the control channel came to.
#[derive(Clone, Copy, Debug, PartialEq, Eq)]
pub struct Handled {
    /// What the dispatch loop is to do next.
    pub action: ControlAction,
    /// The answer that came back from the reply slot because the caller had
    /// given up waiting for it; `None` where the answer was taken, or where
    /// there was nothing to answer.
    pub undelivered: Option<Option<u16>>,
}

/// The server: both channels and the state of the run.
pub struct App {
    server: Lifecycle,
    rx: mpsc::Receiver<AppMessage>,
    tx: mpsc::Sender<AppMessage>,
    broadcast_tx: broadcast::Sender<SocketMessage>,
}

impl App {
    /// The state of the run.
    pub closed spec fn server(&self) -> LifecycleView {
        self.server@
    }

    /// The server's own handle of the control channel.
    pub closed spec fn control(&self) -> mpsc::Sender<AppMessage> {
        self.tx
    }

    /// The consuming end of the control channel.
    pub closed spec fn inbox(&self) -> mpsc::Receiver<AppMessage> {
        self.rx
    }

    /// The server's own handle of the broadcast channel.
    pub closed spec fn publisher(&self) -> broadcast::Sender<SocketMessage> {
        self.broadcast_tx
    }

    /// Whether this server holds the very channel ends that `before` held.
    pub open spec fn keeps_channels(self, before: App) -> bool {
        &&& self.control() == before.control()
        &&& self.inbox() == before.inbox()
        &&& self.publisher() == before.publisher()
    }

    /// Creates the two channels, each with its capacity, and a server in
    /// `Created`.
    pub fn new() -> (app: App)
        ensures
            app.server() == LifecycleView::initial(),
            control_limit(app.control()) == CONTROL_CAPACITY,
            event_limit(app.publisher()) == BROADCAST_CAPACITY,
    {
        let (tx, rx) = control_channel(CONTROL_CAPACITY);
        assert(16usize & 15usize == 0) by (bit_vector);
        let broadcast_tx = event_channel(BROADCAST_CAPACITY);
        App { server: Lifecycle::new(), rx, tx, broadcast_tx }
    }

    /// Hands out a control handle: one more producer for this server's own
    /// control queue, with the limit of that queue.
    pub fn get_tx(&self) -> (handle: mpsc::Sender<AppMessage>)
        ensures
            same_control_channel(self.control(), handle),
            control_limit(handle) == control_limit(self.control()),
    {
        clone_control(&self.tx)
    }

    /// Hands out a publishing handle: one more publisher on this server's
    /// own broadcast channel, which retains as many events for it.
    pub fn get_broadcast(&self) -> (handle: broadcast::Sender<SocketMessage>)
        ensures
            same_event_channel(self.publisher(), handle),
            event_limit(handle) == event_limit(self.publisher()),
    {
        clone_publisher(&self.broadcast_tx)
    }

    /// Lends the consuming end of the control channel to the dispatch loop:
    /// the reference is to the server's own receiver, what the loop does
    /// with it is what the server has afterwards, and nothing else of the
    /// server changes.
    pub fn receiver(&mut self) -> (rx: &mut mpsc::Receiver<AppMessage>)
        ensures
            *rx == old(self).inbox(),
            final(self).inbox() == *final(rx),
            final(self).server() == old(self).server(),
            final(self).control() == old(self).control(),
            final(self).publisher() == old(self).publisher(),
    {
        &mut self.rx
    }

    /// Returns the port, once the socket is bound.
    pub fn port(&self) -> (port: Option<u16>)
        ensures
            port == self.server().port,
            self.server().wf(),
    {
        self.server.port()
    }

    /// Returns the current phase.
    pub fn phase(&self) -> (phase: Phase)
        ensures
            phase == self.server().phase,
            self.server().wf(),
    {
        self.server.phase()
    }

    /// Records the port of the freshly bound socket: `Created` to `Bound`.
    /// In any other phase nothing changes, whatever port the server has or
    /// lacks, and the call reports `NotCreated`.
    pub fn bind(&mut self, port: u16) -> (outcome: Result<(), LifecycleError>)
        ensures
            final(self).server() == old(self).server().bind(port),
            (*final(self)).keeps_channels(*old(self)),
            outcome == if old(self).server().phase == Phase::Created {
                Ok::<(), LifecycleError>(())
            } else {
                Err::<(), LifecycleError>(LifecycleError::NotCreated)
            },
    {
        self.server.bind(port)
    }

    /// Enters the dispatch loop: `Bound` to `Running`.
    pub fn start(&mut self) -> (outcome: Result<(), LifecycleError>)
        ensures
            final(self).server() == old(self).server().start(),
            (*final(self)).keeps_channels(*old(self)),
            outcome == if old(self).server().phase == Phase::Bound {
                Ok::<(), LifecycleError>(())
            } else {
                Err::<(), LifecycleError>(LifecycleError::NotBound)
            },
    {
        self.server.start()
    }

    /// Ends the run: `Stopping` to `Stopped`.
    pub fn finish(&mut self) -> (outcome: Result<(), LifecycleError>)
        ensures
            final(self).server() == old(self).server().finish(),
            (*final(self)).keeps_channels(*old(self)),
            outcome == if old(self).server().phase == Phase::Stopping {
                Ok::<(), LifecycleError>(())
            } else {
                Err::<(), LifecycleError>(LifecycleError::NotStopping)
            },
    {
        self.server.finish()
    }

    /// Handles one receive on the control channel. A port request has its
    /// slot fulfilled with the port as it stands; where the caller has given
    /// up waiting, the answer comes back and is handed out, and the loop goes
    /// on undisturbed. A quit request or a closed channel ends the loop. Once
    /// the loop has ended, requests are dropped unanswered.
    pub fn handle(&mut self, received: Option<AppMessage>) -> (handled: Handled)
        ensures
            handled.action == old(self).server().action(event_of(received)),
            final(self).server() == old(self).server().dispatch(event_of(received)),
            (*final(self)).keeps_channels(*old(self)),
            handled.undelivered matches Some(answer) ==> handled.action == ControlAction::Reply(
                answer,
            ),
    {
        match received {
            Some(AppMessage::GetPort(slot)) => {
                let action = self.server.dispatch(ControlEvent::GetPort);
                match action {
                    ControlAction::Reply(port) => match fulfil(slot, port) {
                        Ok(_) => Handled { action, undelivered: None },
                        Err(answer) => Handled { action, undelivered: Some(answer) },
                    },
                    _ => Handled { action, undelivered: None },
                }
            },
            Some(AppMessage::Quit) => Handled {
                action: self.server.dispatch(ControlEvent::Quit),
                undelivered: None,
            },
            None => Handled {
                action: self.server.dispatch(ControlEvent::Closed),
                undelivered: None,
            },
        }
    }
}

} // verus!
