//! One tick of the world as it is broadcast to every connection.
use crate::model::{World, WorldEvent};
use crate::shared::share;
use std::sync::Arc;
use vstd::prelude::*;

verus! {

/// The view events that the client `client_id` sees of `events`, in order.
pub open spec fn events_seen_by<WE: WorldEvent>(events: Seq<WE>, client_id: u64) -> Seq<
    WE::ViewEvent,
>
    decreases events.len(),
{
    if events.len() == 0 {
        Seq::empty()
    } else {
        let earlier = events_seen_by(events.drop_last(), client_id);
        match events.last().seen_by(client_id) {
            Some(e) => earlier.push(e),
            None => earlier,
        }
    }
}

/// What the client `client_id` sees of the single event `event`: its view of
/// it, or nothing.
pub open spec fn seen_of_one<WE: WorldEvent>(event: WE, client_id: u64) -> Seq<WE::ViewEvent> {
    match event.seen_by(client_id) {
        Some(v) => seq![v],
        None => Seq::empty(),
    }
}

/// A client sees each event of a tick on its own: of a single event, exactly
/// its view of it, if it has one; of events one after another, what it sees of
/// the first ones followed by what it sees of the rest. So nothing it may see
/// is dropped, added or reordered, however many events a tick holds.
pub proof fn events_seen_one_by_one<WE: WorldEvent>(
    first: Seq<WE>,
    rest: Seq<WE>,
    event: WE,
    client_id: u64,
)
    ensures
        events_seen_by(seq![event], client_id) == seen_of_one(event, client_id),
        events_seen_by(first + rest, client_id) == events_seen_by(first, client_id)
            + events_seen_by(rest, client_id),
    decreases rest.len(),
{
    assert(seq![event].drop_last() =~= Seq::<WE>::empty());
    assert(events_seen_by(Seq::<WE>::empty(), client_id) =~= Seq::empty());
    assert(events_seen_by(seq![event], client_id) =~= seen_of_one(event, client_id));
    if rest.len() == 0 {
        assert(first + rest =~= first);
        assert(events_seen_by(first, client_id) + events_seen_by(rest, client_id)
            =~= events_seen_by(first, client_id));
    } else {
        events_seen_one_by_one(first, rest.drop_last(), event, client_id);
        assert((first + rest).drop_last() =~= first + rest.drop_last());
        assert((first + rest).last() == rest.last());
        let before = events_seen_by(first, client_id);
        let earlier = events_seen_by(rest.drop_last(), client_id);
        match rest.last().seen_by(client_id) {
            Some(v) => {
                assert((before + earlier).push(v) =~= before + earlier.push(v));
            },
            None => {},
        }
    }
}

/// The events that a client sees number exactly the events of the tick that it
/// may see.
pub proof fn events_seen_count<WE: WorldEvent>(events: Seq<WE>, client_id: u64)
    ensures
        events_seen_by(events, client_id).len() == events.filter(
            |e: WE| e.seen_by(client_id) is Some,
        ).len(),
    decreases events.len(),
{
    reveal(Seq::filter);
    if events.len() > 0 {
        events_seen_count(events.drop_last(), client_id);
    }
}

/// What one tick produced, shared by every connection: the events, and a copy of
/// the world where a client joined in it.
pub struct Tick<W: World>(Arc<TickState<W>>);

struct TickState<W: World> {
    world: Option<W>,
    world_events: Vec<W::WorldEvent>,
}

impl<W: World> Tick<W> {
    /// The copy of the world that the tick carries, if any.
    pub closed spec fn world(&self) -> Option<W> {
        self.0.world
    }

    /// The events that the tick produced, in order.
    pub closed spec fn world_events(&self) -> Seq<W::WorldEvent> {
        self.0.world_events@
    }

    pub fn new(world: Option<W>, world_events: Vec<W::WorldEvent>) -> (tick: Self)
        ensures
            tick.world() == world,
            tick.world_events() == world_events@,
    {
        Tick(Arc::new(TickState { world, world_events }))
    }

    /// The snapshot for the client `client_id`, where the tick carries the world.
    pub fn view(&self, client_id: u64) -> (view: Option<W::View>)
        ensures
            view == match self.world() {
                Some(world) => Some(world.projection(client_id)),
                None => None,
            },
    {
        match &self.0.world {
            Some(world) => Some(world.view(client_id)),
            None => None,
        }
    }

    /// The events of the tick as the client `client_id` sees them, in order,
    /// leaving out those hidden from it.
    pub fn view_events(&self, client_id: u64) -> (seen: Vec<<W::WorldEvent as WorldEvent>::ViewEvent>)
        ensures
            seen@ == events_seen_by(self.world_events(), client_id),
    {
        let events = &self.0.world_events;
        let mut seen: Vec<<W::WorldEvent as WorldEvent>::ViewEvent> = Vec::new();
        let mut i: usize = 0;
        while i < events.len()
            invariant
                i <= events.len(),
                events@ == self.world_events(),
                seen@ == events_seen_by(events@.take(i as int), client_id),
            decreases events.len() - i,
        {
            proof {
                assert(events@.take(i as int + 1).drop_last() =~= events@.take(i as int));
            }
            match events[i].view(client_id) {
                Some(e) => seen.push(e),
                None => {},
            }
            i = i + 1;
        }
        proof {
            assert(events@.take(events.len() as int) =~= events@);
        }
        seen
    }
}

impl<W: World> Clone for Tick<W> {
    /// Another handle to the same tick.
    fn clone(&self) -> (copy: Self)
        ensures
            copy == *self,
    {
        Tick(share(&self.0))
    }
}

} // verus!
