//! The decisions of the task that owns the world: it gathers every input that
//! arrives between ticks and hands them to `World::update` as one batch when the
//! tick comes.
use crate::duration::{duration_from_nanos, duration_nanos, duration_saturating_sub};
use crate::model::{has_connection, is_connection, TimeWorldInput, World, WorldInput};
use crate::tick::Tick;
use std::ops::ControlFlow;
use std::time::Duration;
use vstd::prelude::*;

verus! {

/// The most inputs taken from the channel in one receive.
pub const INPUT_BATCH_LIMIT: usize = 1024;

/// The length of the time span that separates `earlier` from `later`, or zero
/// where `later` is not the later one.
pub open spec fn nanos_between(earlier: Duration, later: Duration) -> nat {
    if duration_nanos(later) >= duration_nanos(earlier) {
        (duration_nanos(later) - duration_nanos(earlier)) as nat
    } else {
        0nat
    }
}

/// The time before the tick at `times[j]`: the tick before it, or `start` for
/// the first.
pub open spec fn previous_tick(start: Duration, times: Seq<Duration>, j: int) -> Duration {
    if j == 0 {
        start
    } else {
        times[j - 1]
    }
}

/// The sum, in nanoseconds, of the `delta_time` of the time inputs of ticks at
/// `times`, after a last tick at `start`.
pub open spec fn delta_sum(start: Duration, times: Seq<Duration>) -> nat
    decreases times.len(),
{
    if times.len() == 0 {
        0
    } else {
        delta_sum(start, times.drop_last()) + nanos_between(
            previous_tick(start, times, times.len() - 1),
            times.last(),
        )
    }
}

/// Where time does not go back, the deltas of successive ticks add up to the
/// time between the first and the last: for a driver fresh from `new`, whose
/// last tick is at zero, they add up to the `total_time` of the last tick.
pub proof fn deltas_add_up_to_total(start: Duration, times: Seq<Duration>)
    requires
        times.len() > 0,
        forall|j: int|
            0 <= j < times.len() ==> duration_nanos(previous_tick(start, times, j))
                <= duration_nanos(#[trigger] times[j]),
    ensures
        delta_sum(start, times) == duration_nanos(times.last()) - duration_nanos(start),
    decreases times.len(),
{
    let n = times.len() - 1;
    assert(duration_nanos(previous_tick(start, times, n)) <= duration_nanos(times[n]));
    if n > 0 {
        let shorter = times.drop_last();
        assert forall|j: int|
            0 <= j < shorter.len() implies duration_nanos(previous_tick(start, shorter, j))
            <= duration_nanos(#[trigger] shorter[j]) by {
            assert(duration_nanos(previous_tick(start, times, j)) <= duration_nanos(times[j]));
            if j > 0 {
                assert(shorter[j - 1] == times[j - 1]);
            }
        }
        deltas_add_up_to_total(start, shorter);
        assert(shorter.last() == times[n - 1]);
        assert(previous_tick(start, times, n) == times[n - 1]);
    } else {
        assert(delta_sum(start, times.drop_last()) == 0);
    }
}

/// Any client's arrival, whatever its id, makes the next tick carry a copy of
/// the world: a well-formed driver with a `Connection` among its pending inputs
/// has a snapshot due.
pub proof fn arrival_makes_snapshot_due<W: World>(driver: WorldDriver<W>, i: int)
    requires
        driver.wf(),
        0 <= i < driver.pending().len(),
        driver.pending()[i] matches WorldInput::Connection(_),
    ensures
        driver.snapshot_due(),
{
    assert(is_connection(driver.pending()[i]));
}

/// The world and what has arrived for it since its last tick.
pub struct WorldDriver<W: World> {
    world: W,
    world_inputs: Vec<WorldInput<W::ShadowEvent>>,
    client_connected: bool,
    last_tick: Duration,
}

impl<W: World> WorldDriver<W> {
    /// The world as it stands.
    pub closed spec fn world(&self) -> W {
        self.world
    }

    /// The inputs that arrived since the last tick, in arrival order.
    pub closed spec fn pending(&self) -> Seq<WorldInput<W::ShadowEvent>> {
        self.world_inputs@
    }

    /// Whether the next tick carries a copy of the world for joining clients.
    pub closed spec fn snapshot_due(&self) -> bool {
        self.client_connected
    }

    /// The time of the last tick, measured from the first.
    pub closed spec fn last_tick(&self) -> Duration {
        self.last_tick
    }

    /// A copy of the world is due exactly when a client joined since the last tick.
    pub open spec fn wf(&self) -> bool {
        self.snapshot_due() == has_connection(self.pending())
    }

    /// A driver for `world`, before its first tick.
    pub fn new(world: W) -> (driver: Self)
        ensures
            driver.wf(),
            driver.world() == world,
            driver.pending() == Seq::<WorldInput<W::ShadowEvent>>::empty(),
            !driver.snapshot_due(),
            duration_nanos(driver.last_tick()) == 0,
    {
        WorldDriver {
            world,
            world_inputs: Vec::new(),
            client_connected: false,
            last_tick: duration_from_nanos(0),
        }
    }

    /// Takes one batch from the input channel. An empty batch means that the
    /// channel has closed and that the world stops ticking.
    pub fn receive(&mut self, batch: Vec<WorldInput<W::ShadowEvent>>) -> (flow: ControlFlow<()>)
        requires
            old(self).wf(),
        ensures
            final(self).wf(),
            final(self).world() == old(self).world(),
            final(self).last_tick() == old(self).last_tick(),
            batch@.len() == 0 ==> flow == ControlFlow::<(), ()>::Break(()) && final(self).pending()
                == old(self).pending(),
            batch@.len() > 0 ==> flow == ControlFlow::<(), ()>::Continue(()) && final(self).pending()
                == old(self).pending() + batch@,
            final(self).snapshot_due() == (old(self).snapshot_due() || has_connection(batch@)),
    {
        if batch.len() == 0 {
            proof {
                assert(!has_connection(batch@));
            }
            return ControlFlow::Break(());
        }
        let ghost before = self.world_inputs@;
        let mut joined = false;
        let mut i: usize = 0;
        while i < batch.len()
            invariant
                i <= batch.len(),
                joined == has_connection(batch@.take(i as int)),
            decreases batch.len() - i,
        {
            let c = matches!(batch[i], WorldInput::Connection(_));
            proof {
                let now = batch@.take(i as int);
                let next = batch@.take(i as int + 1);
                assert(c == is_connection(next[i as int]));
                if has_connection(now) {
                    let k = choose|k: int| 0 <= k < now.len() && is_connection(#[trigger] now[k]);
                    assert(next[k] == now[k]);
                }
                if c {
                    assert(is_connection(next[i as int]));
                }
                if has_connection(next) {
                    let k = choose|k: int| 0 <= k < next.len() && is_connection(#[trigger] next[k]);
                    if k < i {
                        assert(now[k] == next[k]);
                    }
                }
            }
            if c {
                joined = true;
            }
            i = i + 1;
        }
        proof {
            assert(batch@.take(batch.len() as int) =~= batch@);
        }
        let ghost arrived = batch@;
        let mut batch = batch;
        self.world_inputs.append(&mut batch);
        self.client_connected = self.client_connected || joined;
        proof {
            let all = self.world_inputs@;
            assert(all =~= before + arrived);
            if has_connection(all) {
                let k = choose|k: int| 0 <= k < all.len() && is_connection(#[trigger] all[k]);
                if k < before.len() {
                    assert(before[k] == all[k]);
                } else {
                    assert(all[k] == arrived[k - before.len()]);
                }
            }
            if has_connection(before) {
                let k = choose|k: int| 0 <= k < before.len() && is_connection(#[trigger] before[k]);
                assert(all[k] == before[k]);
            }
            if has_connection(arrived) {
                let k = choose|k: int| 0 <= k < arrived.len() && is_connection(#[trigger] arrived[k]);
                assert(all[k + before.len()] == arrived[k]);
            }
        }
        ControlFlow::Continue(())
    }

    /// Runs one tick, `elapsed` after the first: the world is updated with every
    /// input that arrived since the last tick, in order, followed by one time
    /// input, and a copy of the world goes with the tick only where a client
    /// joined since the last one.
    pub fn tick(&mut self, elapsed: Duration) -> (tick: Tick<W>)
        requires
            old(self).wf(),
        ensures
            final(self).wf(),
            exists|time: TimeWorldInput|
                {
                    &&& time.total_time == elapsed
                    &&& duration_nanos(time.delta_time) == nanos_between(
                        old(self).last_tick(),
                        elapsed,
                    )
                    &&& old(self).world().updates_to(
                        old(self).pending().push(WorldInput::Time(time)),
                        final(self).world(),
                        tick.world_events(),
                    )
                },
            tick.world() is Some <==> old(self).snapshot_due(),
            tick.world() is Some ==> cloned(final(self).world(), tick.world()->0),
            final(self).pending() == Seq::<WorldInput<W::ShadowEvent>>::empty(),
            !final(self).snapshot_due(),
            final(self).last_tick() == elapsed,
    {
        let delta = duration_saturating_sub(elapsed, self.last_tick);
        let time = TimeWorldInput { total_time: elapsed, delta_time: delta };
        let ghost t = time;
        let ghost before = *self;
        self.world_inputs.push(WorldInput::Time(time));
        self.last_tick = elapsed;
        let world_events = self.world.update(self.world_inputs.as_slice());
        let world = if self.client_connected {
            Some(self.world.clone())
        } else {
            None
        };
        self.world_inputs.clear();
        self.client_connected = false;
        proof {
            assert(!has_connection(self.world_inputs@));
        }
        let tick = Tick::new(world, world_events);
        proof {
            // `t` is the time input that the update was handed.
            assert(t.total_time == elapsed);
            assert(duration_nanos(t.delta_time) == nanos_between(before.last_tick(), elapsed));
            assert(before.world().updates_to(
                before.pending().push(WorldInput::Time(t)),
                self.world(),
                tick.world_events(),
            ));
        }
        tick
    }
}

} // verus!
