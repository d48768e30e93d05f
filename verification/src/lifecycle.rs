//! The life of one server run as a state machine.
//!
//! A server is created, binds its listening socket once, runs its dispatch
//! loop, and stops when it is told to quit or when every control handle is
//! gone. The port is recorded when the socket is bound and never changes
//! afterwards.

use vstd::prelude::*;

verus! {

/// The phases of a server run, in the order in which they are passed.
#[derive(Clone, Copy, Debug, PartialEq, Eq, Structural)]
pub enum Phase {
    /// Channels exist, no socket yet.
    Created,
    /// The listening socket is bound and its port is known.
    Bound,
    /// The dispatch loop is serving control requests.
    Running,
    /// Shutdown has been signalled; the dispatch loop has ended.
    Stopping,
    /// The run is over.
    Stopped,
}

/// What the dispatch loop can be handed by the control channel.
#[derive(Clone, Copy, Debug, PartialEq, Eq, Structural)]
pub enum ControlEvent {
    /// A caller asks for the port.
    GetPort,
    /// A caller asks the server to stop.
    Quit,
    /// Every control handle has been dropped.
    Closed,
}

/// What the dispatch loop does in answer to a [`ControlEvent`].
#[derive(Clone, Copy, Debug, PartialEq, Eq, Structural)]
pub enum ControlAction {
    /// Answer the request with this port value and go on serving.
    Reply(Option<u16>),
    /// Signal the graceful-shutdown trigger and leave the loop.
    Shutdown,
    /// The loop has ended already: drop the request unanswered.
    Discard,
}

/// Why a phase change was refused.
#[derive(Clone, Copy, Debug, PartialEq, Eq, Structural)]
pub enum LifecycleError {
    /// `bind` on a server that is not in `Created`: its socket is bound
    /// already, or it was stopped before it got that far.
    NotCreated,
    /// `start` on a server that is not in `Bound`.
    NotBound,
    /// `finish` on a server that is not in `Stopping`.
    NotStopping,
}

/// The state of a server run as a mathematical value.
pub struct LifecycleView {
    pub phase: Phase,
    pub port: Option<u16>,
}

impl LifecycleView {
    /// No port is known before the socket is bound, and one is known while
    /// the server is bound or running. (A server that is stopped before it
    /// was ever bound ends without one.)
    pub open spec fn wf(self) -> bool {
        &&& self.phase == Phase::Created ==> self.port is None
        &&& self.phase == Phase::Bound || self.phase == Phase::Running ==> self.port is Some
    }

    /// Whether the dispatch loop has ended.
    pub open spec fn halted(self) -> bool {
        self.phase == Phase::Stopping || self.phase == Phase::Stopped
    }

    /// The state of a server that was just created.
    pub open spec fn initial() -> LifecycleView {
        LifecycleView { phase: Phase::Created, port: None }
    }

    /// The state after the socket was bound to `port`; unchanged where the
    /// server is bound already.
    pub open spec fn bind(self, port: u16) -> LifecycleView {
        if self.phase == Phase::Created {
            LifecycleView { phase: Phase::Bound, port: Some(port) }
        } else {
            self
        }
    }

    /// The state after the dispatch loop was entered.
    pub open spec fn start(self) -> LifecycleView {
        if self.phase == Phase::Bound {
            LifecycleView { phase: Phase::Running, port: self.port }
        } else {
            self
        }
    }

    /// The state after the hosting thread was joined.
    pub open spec fn finish(self) -> LifecycleView {
        if self.phase == Phase::Stopping {
            LifecycleView { phase: Phase::Stopped, port: self.port }
        } else {
            self
        }
    }

    /// What the dispatch loop does with `event` in this state.
    pub open spec fn action(self, event: ControlEvent) -> ControlAction {
        if self.halted() {
            ControlAction::Discard
        } else {
            match event {
                ControlEvent::GetPort => ControlAction::Reply(self.port),
                ControlEvent::Quit => ControlAction::Shutdown,
                ControlEvent::Closed => ControlAction::Shutdown,
            }
        }
    }

    /// The state after `event` was dispatched.
    pub open spec fn dispatch(self, event: ControlEvent) -> LifecycleView {
        if self.halted() || event == ControlEvent::GetPort {
            self
        } else {
            LifecycleView { phase: Phase::Stopping, port: self.port }
        }
    }
}

/// One thing that can happen to a server during its life.
pub enum Transition {
    Bind(u16),
    Start,
    Dispatch(ControlEvent),
    Finish,
}

impl LifecycleView {
    /// The state after one transition.
    pub open spec fn apply(self, transition: Transition) -> LifecycleView {
        match transition {
            Transition::Bind(port) => self.bind(port),
            Transition::Start => self.start(),
            Transition::Dispatch(event) => self.dispatch(event),
            Transition::Finish => self.finish(),
        }
    }

    /// The state after a sequence of transitions.
    pub open spec fn run(self, history: Seq<Transition>) -> LifecycleView
        decreases history.len(),
    {
        if history.len() == 0 {
            self
        } else {
            self.run(history.drop_last()).apply(history.last())
        }
    }
}

/// The phase and port of one server run.
#[derive(Debug)]
pub struct Lifecycle {
    phase: Phase,
    port: Option<u16>,
}

impl View for Lifecycle {
    type V = LifecycleView;

    closed spec fn view(&self) -> LifecycleView {
        LifecycleView { phase: self.phase, port: self.port }
    }
}

impl Lifecycle {
    #[verifier::type_invariant]
    spec fn inv(self) -> bool {
        self@.wf()
    }

    /// A server in `Created`, with no port.
    pub fn new() -> (server: Lifecycle)
        ensures
            server@ == LifecycleView::initial(),
    {
        Lifecycle { phase: Phase::Created, port: None }
    }

    /// Returns the current phase.
    pub fn phase(&self) -> (phase: Phase)
        ensures
            phase == self@.phase,
            self@.wf(),
    {
        proof {
            use_type_invariant(self);
        }
        self.phase
    }

    /// Returns the port, once the socket is bound.
    pub fn port(&self) -> (port: Option<u16>)
        ensures
            port == self@.port,
            self@.wf(),
    {
        proof {
            use_type_invariant(self);
        }
        self.port
    }

    /// Records the port of the freshly bound socket: `Created` to `Bound`.
    /// In any other phase nothing changes, whatever port the server has or
    /// lacks, and the call reports `NotCreated`.
    pub fn bind(&mut self, port: u16) -> (outcome: Result<(), LifecycleError>)
        ensures
            final(self)@ == old(self)@.bind(port),
            outcome == if old(self)@.phase == Phase::Created {
                Ok::<(), LifecycleError>(())
            } else {
                Err::<(), LifecycleError>(LifecycleError::NotCreated)
            },
    {
        match self.phase {
            Phase::Created => {
                *self = Lifecycle { phase: Phase::Bound, port: Some(port) };
                Ok(())
            },
            _ => Err(LifecycleError::NotCreated),
        }
    }

    /// Enters the dispatch loop: `Bound` to `Running`.
    pub fn start(&mut self) -> (outcome: Result<(), LifecycleError>)
        ensures
            final(self)@ == old(self)@.start(),
            outcome == if old(self)@.phase == Phase::Bound {
                Ok::<(), LifecycleError>(())
            } else {
                Err::<(), LifecycleError>(LifecycleError::NotBound)
            },
    {
        proof {
            use_type_invariant(&*self);
        }
        match self.phase {
            Phase::Bound => {
                self.phase = Phase::Running;
                Ok(())
            },
            _ => Err(LifecycleError::NotBound),
        }
    }

    /// Decides what to do with one control event. A port request is answered
    /// with the port as it stands and changes nothing; a quit request, or the
    /// loss of every control handle, ends the loop. Once the loop has ended,
    /// every event is discarded.
    pub fn dispatch(&mut self, event: ControlEvent) -> (action: ControlAction)
        ensures
            action == old(self)@.action(event),
            final(self)@ == old(self)@.dispatch(event),
    {
        match self.phase {
            Phase::Stopping => ControlAction::Discard,
            Phase::Stopped => ControlAction::Discard,
            _ => match event {
                ControlEvent::GetPort => ControlAction::Reply(self.port),
                _ => {
                    self.phase = Phase::Stopping;
                    ControlAction::Shutdown
                },
            },
        }
    }

    /// Ends the run after the hosting thread was joined: `Stopping` to
    /// `Stopped`.
    pub fn finish(&mut self) -> (outcome: Result<(), LifecycleError>)
        ensures
            final(self)@ == old(self)@.finish(),
            outcome == if old(self)@.phase == Phase::Stopping {
                Ok::<(), LifecycleError>(())
            } else {
                Err::<(), LifecycleError>(LifecycleError::NotStopping)
            },
    {
        match self.phase {
            Phase::Stopping => {
                self.phase = Phase::Stopped;
                Ok(())
            },
            _ => Err(LifecycleError::NotStopping),
        }
    }
}

/// The place of a phase in the order in which phases are passed.
pub open spec fn rank(phase: Phase) -> nat {
    match phase {
        Phase::Created => 0,
        Phase::Bound => 1,
        Phase::Running => 2,
        Phase::Stopping => 3,
        Phase::Stopped => 4,
    }
}

/// Whether `history` holds no attempt to bind the socket.
pub open spec fn never_binds(history: Seq<Transition>) -> bool {
    forall|i: int| 0 <= i < history.len() ==> !(#[trigger] history[i] is Bind)
}

/// No transition breaks the rule about when a port is known, and none takes
/// a server back to an earlier phase.
pub proof fn lemma_transitions_go_forward(state: LifecycleView, transition: Transition)
    requires
        state.wf(),
    ensures
        state.apply(transition).wf(),
        rank(state.phase) <= rank(state.apply(transition).phase),
{
}

/// A server that has not bound its socket answers a port request with "no
/// value", whatever else has happened to it.
pub proof fn lemma_no_port_before_bound(history: Seq<Transition>)
    requires
        never_binds(history),
    ensures
        LifecycleView::initial().run(history).wf(),
        LifecycleView::initial().run(history).port is None,
        !LifecycleView::initial().run(history).halted() ==> LifecycleView::initial().run(
            history,
        ).action(ControlEvent::GetPort) == ControlAction::Reply(None),
    decreases history.len(),
{
    if history.len() > 0 {
        let earlier = history.drop_last();
        assert(never_binds(earlier)) by {
            assert forall|i: int| 0 <= i < earlier.len() implies !(#[trigger] earlier[i] is Bind) by {
                assert(earlier[i] == history[i]);
            }
        }
        lemma_no_port_before_bound(earlier);
    }
}

/// Once the socket is bound the port is fixed: whatever happens to the
/// server afterwards, it keeps the port it was bound to, and every port
/// request that it serves is answered with that port.
pub proof fn lemma_port_is_fixed(state: LifecycleView, history: Seq<Transition>)
    requires
        state.wf(),
        state.port is Some,
    ensures
        state.run(history).wf(),
        state.run(history).port == state.port,
        !state.run(history).halted() ==> state.run(history).action(ControlEvent::GetPort)
            == ControlAction::Reply(state.port),
    decreases history.len(),
{
    if history.len() > 0 {
        lemma_port_is_fixed(state, history.drop_last());
    }
}

/// Losing every control handle ends the dispatch loop just as a quit
/// request does.
pub proof fn lemma_closed_channel_is_quit(state: LifecycleView)
    ensures
        state.action(ControlEvent::Closed) == state.action(ControlEvent::Quit),
        state.dispatch(ControlEvent::Closed) == state.dispatch(ControlEvent::Quit),
{
}

/// A quit is final: after it the dispatch loop has ended for good, and
/// whatever request still arrives is discarded, never answered.
pub proof fn lemma_quit_is_final(
    state: LifecycleView,
    history: Seq<Transition>,
    event: ControlEvent,
)
    ensures
        state.dispatch(ControlEvent::Quit).run(history).halted(),
        state.dispatch(ControlEvent::Quit).run(history).action(event) == ControlAction::Discard,
    decreases history.len(),
{
    if history.len() > 0 {
        lemma_quit_is_final(state, history.drop_last(), event);
    }
}

} // verus!
