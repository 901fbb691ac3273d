//! The decisions that the server makes for one connected client: it announces
//! the client to the world, sends it a snapshot before anything else, then only
//! the events that the client may see, and announces its departure once.
use crate::model::{
    ConnectionWorldInput, DisconnectionWorldInput, ShadowEvent, ShadowEventWorldInput, World,
    WorldEvent, WorldInput,
};
use crate::tick::{events_seen_by, Tick};
use vstd::prelude::*;

verus! {

/// Where a connection stands.
#[derive(PartialEq, Eq, Structural, Clone, Copy, Debug)]
pub enum SessionPhase {
    /// Joined, waiting for a tick that carries its snapshot.
    AwaitingSnapshot,
    /// Sent its snapshot; now sent the events it may see.
    Streaming,
    /// Gone; its departure has been announced.
    Closed,
}

/// What the server writes to the client.
pub enum SessionMessage<V, E> {
    /// The view that opens the session.
    Snapshot(V),
    /// A non-empty batch of view events.
    Events(Vec<E>),
}

/// What happens to a session.
pub enum SessionEvent {
    /// A tick arrives; `true` where it carries the world.
    Tick(bool),
    /// An event arrives from the client.
    Forward,
    /// The connection ends.
    Close,
}

/// The kinds of input that a session hands the world.
#[derive(PartialEq, Eq, Structural, Clone, Copy, Debug)]
pub enum SessionInput {
    Connection,
    ShadowEvent,
    Disconnection,
}

/// The kind of `input`, where it is one that a session hands the world.
pub open spec fn session_input_of<SE: ShadowEvent>(input: WorldInput<SE>) -> Option<SessionInput> {
    match input {
        WorldInput::Connection(_) => Some(SessionInput::Connection),
        WorldInput::ShadowEvent(_) => Some(SessionInput::ShadowEvent),
        WorldInput::Disconnection(_) => Some(SessionInput::Disconnection),
        WorldInput::Time(_) => None,
    }
}

/// The phase that `event` leads to from `phase`, with the input handed to the
/// world on the way; `None` where the event cannot happen in that phase.
pub open spec fn session_step(phase: SessionPhase, event: SessionEvent) -> Option<
    (SessionPhase, Option<SessionInput>),
> {
    match (phase, event) {
        (SessionPhase::AwaitingSnapshot, SessionEvent::Tick(carries_world)) => Some(
            (
                if carries_world {
                    SessionPhase::Streaming
                } else {
                    SessionPhase::AwaitingSnapshot
                },
                None,
            ),
        ),
        (SessionPhase::Streaming, SessionEvent::Tick(_)) => Some((SessionPhase::Streaming, None)),
        (SessionPhase::Streaming, SessionEvent::Forward) => Some(
            (SessionPhase::Streaming, Some(SessionInput::ShadowEvent)),
        ),
        (SessionPhase::Closed, _) => None,
        (_, SessionEvent::Close) => Some((SessionPhase::Closed, Some(SessionInput::Disconnection))),
        _ => None,
    }
}

/// The phase and the inputs handed to the world after `events`, from the
/// opening of the session; `None` where some event could not happen.
pub open spec fn run_session(events: Seq<SessionEvent>) -> Option<(SessionPhase, Seq<SessionInput>)>
    decreases events.len(),
{
    if events.len() == 0 {
        Some((SessionPhase::AwaitingSnapshot, seq![SessionInput::Connection]))
    } else {
        match run_session(events.drop_last()) {
            Some((phase, inputs)) => match session_step(phase, events.last()) {
                Some((next, Some(input))) => Some((next, inputs.push(input))),
                Some((next, None)) => Some((next, inputs)),
                None => None,
            },
            None => None,
        }
    }
}

/// The inputs of one session: its `Connection` first and only there, its
/// `Disconnection` last and only there, and that exactly when it has closed.
pub open spec fn session_inputs_ok(phase: SessionPhase, inputs: Seq<SessionInput>) -> bool {
    &&& inputs.len() > 0
    &&& inputs[0] == SessionInput::Connection
    &&& forall|i: int| 0 < i < inputs.len() ==> #[trigger] inputs[i] != SessionInput::Connection
    &&& forall|i: int| 0 <= i < inputs.len() - 1 ==> #[trigger] inputs[i] != SessionInput::Disconnection
    &&& (phase == SessionPhase::Closed <==> inputs.last() == SessionInput::Disconnection)
}

/// Whatever happens to a connection, the world is handed its `Connection`
/// first, then only its events, then its `Disconnection` once, last; after that
/// nothing more happens to the session.
pub proof fn session_inputs_are_well_formed(events: Seq<SessionEvent>)
    ensures
        run_session(events) matches Some((phase, inputs)) ==> session_inputs_ok(phase, inputs),
        run_session(events) matches Some((phase, inputs)) ==> (phase == SessionPhase::Closed
            ==> forall|e: SessionEvent| session_step(phase, e) is None),
    decreases events.len(),
{
    if events.len() > 0 {
        session_inputs_are_well_formed(events.drop_last());
        if let Some((phase, inputs)) = run_session(events.drop_last()) {
            if let Some((next, Some(input))) = session_step(phase, events.last()) {
                let grown = inputs.push(input);
                assert forall|i: int| 0 < i < grown.len() implies #[trigger] grown[i]
                    != SessionInput::Connection by {
                    if i < inputs.len() {
                        assert(grown[i] == inputs[i]);
                    }
                }
                assert forall|i: int| 0 <= i < grown.len() - 1 implies #[trigger] grown[i]
                    != SessionInput::Disconnection by {
                    assert(grown[i] == inputs[i]);
                }
            }
        }
    }
}

/// The input that hands `shadow_event`, sent by the client `client_id`, to the
/// world.
pub fn shadow_event_input<SE: ShadowEvent>(client_id: u64, shadow_event: SE) -> (input: WorldInput<
    SE,
>)
    ensures
        input == WorldInput::ShadowEvent(ShadowEventWorldInput { client_id, shadow_event }),
{
    WorldInput::ShadowEvent(ShadowEventWorldInput { client_id, shadow_event })
}

/// One connected client, as the server sees it.
pub struct ClientSession {
    client_id: u64,
    phase: SessionPhase,
}

impl ClientSession {
    pub closed spec fn client_id(&self) -> u64 {
        self.client_id
    }

    pub closed spec fn phase(&self) -> SessionPhase {
        self.phase
    }

    /// Opens the session of a client that has just been given `client_id`, and
    /// returns the input that announces it to the world.
    pub fn open<SE: ShadowEvent>(client_id: u64) -> (opened: (Self, WorldInput<SE>))
        ensures
            opened.0.client_id() == client_id,
            opened.0.phase() == SessionPhase::AwaitingSnapshot,
            opened.1 == WorldInput::<SE>::Connection(ConnectionWorldInput { client_id }),
    {
        (
            ClientSession { client_id, phase: SessionPhase::AwaitingSnapshot },
            WorldInput::Connection(ConnectionWorldInput { client_id }),
        )
    }

    /// The client's id.
    pub fn id(&self) -> (id: u64)
        ensures
            id == self.client_id(),
    {
        self.client_id
    }

    /// Takes one tick. Before the snapshot, the first tick that carries the
    /// world yields the client's view of it and ticks without one yield nothing;
    /// after it, a tick yields the events that the client may see, in order, and
    /// nothing where it may see none.
    pub fn on_tick<W: World>(&mut self, tick: &Tick<W>) -> (message: Option<
        SessionMessage<W::View, <W::WorldEvent as WorldEvent>::ViewEvent>,
    >)
        requires
            old(self).phase() != SessionPhase::Closed,
        ensures
            final(self).client_id() == old(self).client_id(),
            session_step(old(self).phase(), SessionEvent::Tick(tick.world() is Some)) == Some(
                (final(self).phase(), None::<SessionInput>),
            ),
            old(self).phase() == SessionPhase::AwaitingSnapshot ==> match tick.world() {
                Some(world) => {
                    &&& final(self).phase() == SessionPhase::Streaming
                    &&& message matches Some(SessionMessage::Snapshot(view))
                    &&& view == world.projection(old(self).client_id())
                },
                None => final(self).phase() == SessionPhase::AwaitingSnapshot && message is None,
            },
            old(self).phase() == SessionPhase::Streaming ==> {
                let seen = events_seen_by(tick.world_events(), old(self).client_id());
                &&& final(self).phase() == SessionPhase::Streaming
                &&& seen.len() == 0 ==> message is None
                &&& seen.len() > 0 ==> (message matches Some(SessionMessage::Events(events))
                    && events@ == seen)
            },
    {
        match self.phase {
            SessionPhase::AwaitingSnapshot => match tick.view(self.client_id) {
                Some(view) => {
                    self.phase = SessionPhase::Streaming;
                    Some(SessionMessage::Snapshot(view))
                },
                None => None,
            },
            _ => {
                let events = tick.view_events(self.client_id);
                if events.len() == 0 {
                    None
                } else {
                    Some(SessionMessage::Events(events))
                }
            },
        }
    }

    /// Where the session stands.
    pub fn current_phase(&self) -> (phase: SessionPhase)
        ensures
            phase == self.phase(),
    {
        self.phase
    }

    /// The input that hands an event the client sent to the world, marked with
    /// the client's id. Events are read from the client only once it has its
    /// snapshot, and none after the session has closed.
    pub fn forward<SE: ShadowEvent>(&self, shadow_event: SE) -> (input: WorldInput<SE>)
        requires
            self.phase() == SessionPhase::Streaming,
        ensures
            input == WorldInput::ShadowEvent(
                ShadowEventWorldInput { client_id: self.client_id(), shadow_event },
            ),
            session_step(self.phase(), SessionEvent::Forward) == Some(
                (self.phase(), session_input_of(input)),
            ),
    {
        shadow_event_input(self.client_id, shadow_event)
    }

    /// Closes the session, and returns the input that announces the client's
    /// departure to the world. A session closes once.
    pub fn close<SE: ShadowEvent>(&mut self) -> (input: WorldInput<SE>)
        requires
            old(self).phase() != SessionPhase::Closed,
        ensures
            final(self).client_id() == old(self).client_id(),
            final(self).phase() == SessionPhase::Closed,
            session_step(old(self).phase(), SessionEvent::Close) == Some(
                (final(self).phase(), session_input_of(input)),
            ),
            input == WorldInput::<SE>::Disconnection(
                DisconnectionWorldInput { client_id: old(self).client_id() },
            ),
    {
        self.phase = SessionPhase::Closed;
        WorldInput::Disconnection(DisconnectionWorldInput { client_id: self.client_id })
    }

    /// Whether the session is still open.
    pub fn is_open(&self) -> (open: bool)
        ensures
            open == (self.phase() != SessionPhase::Closed),
    {
        self.phase != SessionPhase::Closed
    }
}

} // verus!
