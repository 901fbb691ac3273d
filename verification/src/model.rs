//! The model that the server and the client share: the traits a game implements
//! (`World`, `WorldEvent`, `ClientView`, `Shadow` and their events) and the inputs
//! that drive them.
use std::sync::Arc;
use std::time::Duration;
use vstd::prelude::*;

verus! {

/// An event that a client's view replays. It crosses the network, so a game also
/// gives it serde's traits where it runs the server or the client.
pub trait ViewEvent: Sized + Send {

}

/// An event that a client's shadow emits for the server's world.
pub trait ShadowEvent: Sized + Send + 'static {

}

/// What a client holds: its projection of the world, kept current by replaying
/// view events onto it.
pub trait ClientView: Sized + Clone + Send + Sync + 'static {
    type ViewEvent: ViewEvent;

    /// The view that results from replaying `view_event` onto `self`. The default is
    /// one value, fixed whatever the arguments, that Verus cannot show an
    /// implementation to meet, so a verified implementation must define it. It has a
    /// body only so that implementations outside Verus, which are not held to the
    /// contract, need not write one.
    open spec fn applied(&self, view_event: Self::ViewEvent) -> Self {
        arbitrary()
    }

    /// Replays `view_event` onto the view.
    fn apply(&mut self, view_event: &Self::ViewEvent)
        ensures
            *final(self) == old(self).applied(*view_event),
    ;
}

/// An event that a tick of the world produced. Each client sees it through
/// `view`, or not at all.
pub trait WorldEvent: Sized + Send + Sync {
    type ViewEvent: ViewEvent;

    /// What the client `client_id` learns of this event; `None` where the event stays
    /// hidden from it. The default is one value, fixed whatever the arguments, that
    /// Verus cannot show an implementation to meet, so a verified implementation must
    /// define it. It has a body only so that implementations outside Verus, which are
    /// not held to the contract, need not write one.
    open spec fn seen_by(&self, client_id: u64) -> Option<Self::ViewEvent> {
        arbitrary()
    }

    /// The event as the client `client_id` sees it, if it sees it at all.
    fn view(&self, client_id: u64) -> (seen: Option<Self::ViewEvent>)
        ensures
            seen == self.seen_by(client_id),
    ;
}

/// The authoritative state of a game, owned by the server and updated once a
/// tick.
pub trait World: Sized + Clone + Send + Sync + 'static {
    type WorldEvent: WorldEvent;
    type View: ClientView<ViewEvent = <Self::WorldEvent as WorldEvent>::ViewEvent>;
    type ShadowEvent: ShadowEvent;

    /// Whether updating `self` with `inputs` may leave the world `next` and produce
    /// `events`. A world that draws on chance may allow several outcomes. The default
    /// is one value, fixed whatever the arguments, that Verus cannot show an
    /// implementation to meet, so a verified implementation must define it. It has a
    /// body only so that implementations outside Verus, which are not held to the
    /// contract, need not write one.
    open spec fn updates_to(
        &self,
        inputs: Seq<WorldInput<Self::ShadowEvent>>,
        next: Self,
        events: Seq<Self::WorldEvent>,
    ) -> bool {
        arbitrary()
    }

    /// The projection of the world built for the client `client_id`. The default is one
    /// value, fixed whatever the arguments, that Verus cannot show an implementation to
    /// meet, so a verified implementation must define it. It has a body only so that
    /// implementations outside Verus, which are not held to the contract, need not
    /// write one.
    open spec fn projection(&self, client_id: u64) -> Self::View {
        arbitrary()
    }

    /// Advances the world by one tick, handing it every input that arrived since
    /// the last one, and returns the events that the tick produced.
    fn update(&mut self, inputs: &[WorldInput<Self::ShadowEvent>]) -> (events: Vec<Self::WorldEvent>)
        ensures
            old(self).updates_to(inputs@, *final(self), events@),
    ;

    /// The view of the world that the client `client_id` is given when it joins.
    fn view(&self, client_id: u64) -> (view: Self::View)
        ensures
            view == self.projection(client_id),
    ;
}

/// The presentation layer of a client: it draws each frame and answers with the
/// events it sends to the server.
pub trait Shadow: Sized {
    type ShadowEvent: ShadowEvent;
    type View: ClientView;
    type Renderer<'a>;

    /// Whether drawing a frame from `inputs` may leave the shadow `next` and produce
    /// `events`. The default is one value, fixed whatever the arguments, that Verus
    /// cannot show an implementation to meet, so a verified implementation must define
    /// it. It has a body only so that implementations outside Verus, which are not held
    /// to the contract, need not write one.
    open spec fn updated(
        &self,
        inputs: Seq<ShadowInput<Self::View>>,
        next: Self,
        events: Seq<Self::ShadowEvent>,
    ) -> bool {
        arbitrary()
    }

    /// Draws one frame from the inputs that arrived since the last one and returns
    /// the events to send to the server.
    fn update(&mut self, inputs: &[ShadowInput<Self::View>], renderer: Self::Renderer<'_>) -> (events:
        Vec<Self::ShadowEvent>)
        ensures
            old(self).updated(inputs@, *final(self), events@),
    ;
}

/// One input to `World::update`.
pub enum WorldInput<SE: ShadowEvent> {
    Time(TimeWorldInput),
    Connection(ConnectionWorldInput),
    Disconnection(DisconnectionWorldInput),
    ShadowEvent(ShadowEventWorldInput<SE>),
}

/// How far the world has come: since the first tick, and since the last one.
pub struct TimeWorldInput {
    pub total_time: Duration,
    pub delta_time: Duration,
}

/// A client joined.
pub struct ConnectionWorldInput {
    pub client_id: u64,
}

/// A client left.
pub struct DisconnectionWorldInput {
    pub client_id: u64,
}

/// An event that a client's shadow sent.
pub struct ShadowEventWorldInput<SE: ShadowEvent> {
    pub client_id: u64,
    pub shadow_event: SE,
}

/// One input to `Shadow::update`.
pub enum ShadowInput<V: ClientView> {
    Time(TimeShadowInput),
    Connecting,
    ConnectionFailed,
    Connected(Arc<V>),
    Disconnected,
    ViewEvents(ViewEventsShadowInput<V>),
}

/// How far the client has come: since it started, and since the last frame.
pub struct TimeShadowInput {
    pub total_time: Duration,
    pub delta_time: Duration,
}

/// A batch of view events, with the view they have already been applied to.
pub struct ViewEventsShadowInput<V: ClientView> {
    pub view: Arc<V>,
    pub events: Vec<V::ViewEvent>,
}

/// Whether `input` announces a client joining.
pub open spec fn is_connection<SE: ShadowEvent>(input: WorldInput<SE>) -> bool {
    input is Connection
}

/// Whether some input of `inputs` announces a client joining.
pub open spec fn has_connection<SE: ShadowEvent>(inputs: Seq<WorldInput<SE>>) -> bool {
    exists|i: int| 0 <= i < inputs.len() && is_connection(#[trigger] inputs[i])
}

/// Every client's arrival counts as a connection, whatever its id, and no time,
/// departure or client event does; so a batch holds a connection exactly when
/// one of its inputs is a `Connection`.
pub proof fn connections_are_arrivals<SE: ShadowEvent>(
    client_id: u64,
    time: TimeWorldInput,
    shadow_event: ShadowEventWorldInput<SE>,
    inputs: Seq<WorldInput<SE>>,
)
    ensures
        is_connection(WorldInput::<SE>::Connection(ConnectionWorldInput { client_id })),
        !is_connection(WorldInput::<SE>::Disconnection(DisconnectionWorldInput { client_id })),
        !is_connection(WorldInput::<SE>::Time(time)),
        !is_connection(WorldInput::ShadowEvent(shadow_event)),
        has_connection(inputs) <==> exists|i: int|
            0 <= i < inputs.len() && (#[trigger] inputs[i] matches WorldInput::Connection(_)),
{
    if has_connection(inputs) {
        let i = choose|i: int| 0 <= i < inputs.len() && is_connection(#[trigger] inputs[i]);
        assert(inputs[i] matches WorldInput::Connection(_));
    }
    if exists|i: int| 0 <= i < inputs.len() && (#[trigger] inputs[i] matches WorldInput::Connection(_)) {
        let i = choose|i: int|
            0 <= i < inputs.len() && (#[trigger] inputs[i] matches WorldInput::Connection(_));
        assert(is_connection(inputs[i]));
    }
}

/// `view` with every event of `events` replayed onto it, in order.
pub open spec fn replayed<V: ClientView>(view: V, events: Seq<V::ViewEvent>) -> V
    decreases events.len(),
{
    if events.len() == 0 {
        view
    } else {
        replayed(view, events.drop_last()).applied(events.last())
    }
}

/// Replaying two batches one after the other is replaying them joined: a view is
/// the snapshot it started from with every event since replayed in order,
/// however the events were batched.
pub proof fn replay_batches<V: ClientView>(view: V, first: Seq<V::ViewEvent>, second: Seq<V::ViewEvent>)
    ensures
        replayed(replayed(view, first), second) == replayed(view, first + second),
    decreases second.len(),
{
    if second.len() == 0 {
        assert(first + second =~= first);
    } else {
        replay_batches(view, first, second.drop_last());
        assert((first + second).drop_last() =~= first + second.drop_last());
        assert((first + second).last() == second.last());
    }
}

/// Replays every event of `events` onto `view`, in order.
pub fn apply_all<V: ClientView>(view: &mut V, events: &Vec<V::ViewEvent>)
    ensures
        *final(view) == replayed(*old(view), events@),
{
    let mut i: usize = 0;
    while i < events.len()
        invariant
            i <= events.len(),
            *view == replayed(*old(view), events@.take(i as int)),
        decreases events.len() - i,
    {
        view.apply(&events[i]);
        proof {
            assert(events@.take(i as int + 1).drop_last() =~= events@.take(i as int));
        }
        i = i + 1;
    }
    proof {
        assert(events@.take(events.len() as int) =~= events@);
    }
}

} // verus!
