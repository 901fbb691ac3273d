//! The decisions of the client: the lifecycle of its connection as the shadow
//! sees it, when the writer and the wait between attempts end, how incoming
//! events reach the view, and what one frame hands the shadow.
use crate::model::{
    apply_all, replayed, ClientView, Shadow, ShadowInput, TimeShadowInput, ViewEventsShadowInput,
};
use crate::duration::{duration_checked_sub, duration_nanos};
use crate::shared::{make_mut, share};
use std::ops::ControlFlow;
use std::sync::Arc;
use std::time::Duration;
use vstd::prelude::*;

verus! {

/// Where the client's connection stands.
#[derive(PartialEq, Eq, Structural, Clone, Copy, Debug)]
pub enum ClientPhase {
    /// An attempt to connect is under way.
    Connecting,
    /// A session is open.
    Connected,
    /// Waiting before the next attempt.
    Waiting,
    /// The shadow has gone; the client does not connect again.
    Stopped,
}

/// The lifecycle notices that the shadow receives.
#[derive(PartialEq, Eq, Structural, Clone, Copy, Debug)]
pub enum Notice {
    Connecting,
    ConnectionFailed,
    Connected,
    Disconnected,
}

/// What ends a phase of the connection.
pub enum LifecycleEvent {
    /// The attempt connected and received the snapshot.
    ConnectSucceeded,
    /// The attempt failed.
    ConnectFailed,
    /// The session ended; `Break` where the shadow has gone.
    SessionEnded(ControlFlow<()>),
    /// The wait between attempts ended; `Break` where the shadow has gone.
    WaitEnded(ControlFlow<()>),
}

/// The lifecycle notice that `input` is, if it is one.
pub open spec fn notice_of<V: ClientView>(input: ShadowInput<V>) -> Option<Notice> {
    match input {
        ShadowInput::Connecting => Some(Notice::Connecting),
        ShadowInput::ConnectionFailed => Some(Notice::ConnectionFailed),
        ShadowInput::Connected(_) => Some(Notice::Connected),
        ShadowInput::Disconnected => Some(Notice::Disconnected),
        _ => None,
    }
}

/// The phase that `event` leads to from `phase`, with the notice that the shadow
/// is sent on the way; `None` where the event cannot happen in that phase.
pub open spec fn lifecycle_step(phase: ClientPhase, event: LifecycleEvent) -> Option<
    (ClientPhase, Option<Notice>),
> {
    match (phase, event) {
        (ClientPhase::Connecting, LifecycleEvent::ConnectSucceeded) => Some(
            (ClientPhase::Connected, Some(Notice::Connected)),
        ),
        (ClientPhase::Connecting, LifecycleEvent::ConnectFailed) => Some(
            (ClientPhase::Waiting, Some(Notice::ConnectionFailed)),
        ),
        (ClientPhase::Connected, LifecycleEvent::SessionEnded(flow)) => Some(
            (
                if flow is Break {
                    ClientPhase::Stopped
                } else {
                    ClientPhase::Waiting
                },
                Some(Notice::Disconnected),
            ),
        ),
        (ClientPhase::Waiting, LifecycleEvent::WaitEnded(flow)) => Some(
            if flow is Break {
                (ClientPhase::Stopped, None)
            } else {
                (ClientPhase::Connecting, Some(Notice::Connecting))
            },
        ),
        _ => None,
    }
}

/// The phase and the notices sent after `events`, from the start of the client;
/// `None` where some event could not happen.
pub open spec fn run_lifecycle(events: Seq<LifecycleEvent>) -> Option<(ClientPhase, Seq<Notice>)>
    decreases events.len(),
{
    if events.len() == 0 {
        Some((ClientPhase::Connecting, seq![Notice::Connecting]))
    } else {
        match run_lifecycle(events.drop_last()) {
            Some((phase, notices)) => match lifecycle_step(phase, events.last()) {
                Some((next, Some(notice))) => Some((next, notices.push(notice))),
                Some((next, None)) => Some((next, notices)),
                None => None,
            },
            None => None,
        }
    }
}

/// Whether `next` may follow `notice`: an attempt ends in a connection or a
/// failure, a connection ends in a disconnection, and after either end comes
/// the next attempt.
pub open spec fn may_follow(notice: Notice, next: Notice) -> bool {
    match notice {
        Notice::Connecting => next == Notice::Connected || next == Notice::ConnectionFailed,
        Notice::Connected => next == Notice::Disconnected,
        _ => next == Notice::Connecting,
    }
}

/// Whether the last notice sent fits the phase the client is in.
pub open spec fn fits_phase(phase: ClientPhase, last: Notice) -> bool {
    match phase {
        ClientPhase::Connecting => last == Notice::Connecting,
        ClientPhase::Connected => last == Notice::Connected,
        _ => last == Notice::ConnectionFailed || last == Notice::Disconnected,
    }
}

/// The notices form the lifecycle that the shadow is promised: they start with
/// `Connecting`, each follows the one before as `may_follow` allows, and the
/// last fits the phase.
pub open spec fn lifecycle_ok(phase: ClientPhase, notices: Seq<Notice>) -> bool {
    &&& notices.len() > 0
    &&& notices[0] == Notice::Connecting
    &&& forall|i: int| 0 <= i < notices.len() - 1 ==> may_follow(#[trigger] notices[i], notices[i + 1])
    &&& fits_phase(phase, notices.last())
}

/// Whatever happens to the connection, the shadow sees `Connecting` first, then
/// for each attempt either `ConnectionFailed`, or `Connected` and later
/// `Disconnected`, before the next `Connecting`; and once the client has
/// stopped, nothing more happens.
pub proof fn lifecycle_notices_are_well_formed(events: Seq<LifecycleEvent>)
    ensures
        run_lifecycle(events) matches Some((phase, notices)) ==> lifecycle_ok(phase, notices),
        run_lifecycle(events) matches Some((phase, notices)) ==> (phase == ClientPhase::Stopped
            ==> forall|e: LifecycleEvent| lifecycle_step(phase, e) is None),
    decreases events.len(),
{
    if events.len() > 0 {
        lifecycle_notices_are_well_formed(events.drop_last());
        if let Some((phase, notices)) = run_lifecycle(events.drop_last()) {
            if let Some((next, Some(notice))) = lifecycle_step(phase, events.last()) {
                let grown = notices.push(notice);
                assert forall|i: int| 0 <= i < grown.len() - 1 implies may_follow(
                    #[trigger] grown[i],
                    grown[i + 1],
                ) by {
                    if i < notices.len() - 1 {
                        assert(grown[i] == notices[i] && grown[i + 1] == notices[i + 1]);
                    }
                }
            }
        }
    }
}

/// The connection of the client, as far as the shadow is told of it.
pub struct ClientLifecycle {
    phase: ClientPhase,
}

impl ClientLifecycle {
    pub closed spec fn phase(&self) -> ClientPhase {
        self.phase
    }

    /// The first attempt to connect begins: the shadow is told `Connecting`.
    pub fn start<V: ClientView>() -> (started: (Self, ShadowInput<V>))
        ensures
            started.0.phase() == ClientPhase::Connecting,
            notice_of(started.1) == Some(Notice::Connecting),
    {
        (ClientLifecycle { phase: ClientPhase::Connecting }, ShadowInput::Connecting)
    }

    /// The attempt connected and `view` is the snapshot that opens the session:
    /// the shadow is given it with `Connected`, and the returned handle shares it
    /// for the reader to keep current.
    pub fn connected<V: ClientView>(&mut self, view: V) -> (opened: (Arc<V>, ShadowInput<V>))
        requires
            old(self).phase() == ClientPhase::Connecting,
        ensures
            lifecycle_step(old(self).phase(), LifecycleEvent::ConnectSucceeded) == Some(
                (final(self).phase(), notice_of(opened.1)),
            ),
            *opened.0 == view,
            opened.1 == ShadowInput::Connected(opened.0),
    {
        let view = Arc::new(view);
        let shared = share(&view);
        self.phase = ClientPhase::Connected;
        (view, ShadowInput::Connected(shared))
    }

    /// The attempt failed: the shadow is told `ConnectionFailed`, and the client
    /// waits before the next one.
    pub fn connection_failed<V: ClientView>(&mut self) -> (notice: ShadowInput<V>)
        requires
            old(self).phase() == ClientPhase::Connecting,
        ensures
            lifecycle_step(old(self).phase(), LifecycleEvent::ConnectFailed) == Some(
                (final(self).phase(), notice_of(notice)),
            ),
    {
        self.phase = ClientPhase::Waiting;
        ShadowInput::ConnectionFailed
    }

    /// The session ended: the shadow is told `Disconnected`. The client stops
    /// where `outcome` is `Break`, and otherwise waits before the next attempt.
    pub fn session_ended<V: ClientView>(&mut self, outcome: ControlFlow<()>) -> (notice: ShadowInput<
        V,
    >)
        requires
            old(self).phase() == ClientPhase::Connected,
        ensures
            lifecycle_step(old(self).phase(), LifecycleEvent::SessionEnded(outcome)) == Some(
                (final(self).phase(), notice_of(notice)),
            ),
    {
        self.phase = match outcome {
            ControlFlow::Break(()) => ClientPhase::Stopped,
            ControlFlow::Continue(()) => ClientPhase::Waiting,
        };
        ShadowInput::Disconnected
    }

    /// The wait before the next attempt ended. The client stops where `outcome`
    /// is `Break`; otherwise the next attempt begins and the shadow is told
    /// `Connecting`.
    pub fn wait_ended<V: ClientView>(&mut self, outcome: ControlFlow<()>) -> (notice: Option<
        ShadowInput<V>,
    >)
        requires
            old(self).phase() == ClientPhase::Waiting,
        ensures
            lifecycle_step(old(self).phase(), LifecycleEvent::WaitEnded(outcome)) == Some(
                (
                    final(self).phase(),
                    match notice {
                        Some(input) => notice_of(input),
                        None => None,
                    },
                ),
            ),
            notice matches Some(input) ==> notice_of(input) is Some,
    {
        match outcome {
            ControlFlow::Break(()) => {
                self.phase = ClientPhase::Stopped;
                None
            },
            ControlFlow::Continue(()) => {
                self.phase = ClientPhase::Connecting;
                Some(ShadowInput::Connecting)
            },
        }
    }

    /// Where the connection stands.
    pub fn current_phase(&self) -> (phase: ClientPhase)
        ensures
            phase == self.phase(),
    {
        self.phase
    }

    /// Whether the client has stopped for good.
    pub fn is_stopped(&self) -> (stopped: bool)
        ensures
            stopped == (self.phase() == ClientPhase::Stopped),
    {
        self.phase == ClientPhase::Stopped
    }
}

/// What one poll of the writer found.
#[derive(PartialEq, Eq, Structural, Clone, Copy, Debug)]
pub enum WriterPoll {
    /// An event from the shadow was written to the server.
    Sent,
    /// An event from the shadow could not be written.
    SendFailed,
    /// No event arrived within the poll interval.
    NothingArrived,
    /// The shadow has gone: its channel is closed.
    ShadowGone,
}

/// Whether the writer goes on after `poll`: it stops the client where the shadow
/// has gone, ends the session for a reconnect where a write failed or the
/// reader has finished, and otherwise polls again.
pub fn writer_step(poll: WriterPoll, reader_finished: bool) -> (next: Option<ControlFlow<()>>)
    ensures
        poll == WriterPoll::ShadowGone ==> next == Some(ControlFlow::<(), ()>::Break(())),
        poll == WriterPoll::SendFailed ==> next == Some(ControlFlow::<(), ()>::Continue(())),
        (poll == WriterPoll::Sent || poll == WriterPoll::NothingArrived) ==> next == if reader_finished {
            Some(ControlFlow::<(), ()>::Continue(()))
        } else {
            None
        },
{
    match poll {
        WriterPoll::ShadowGone => Some(ControlFlow::Break(())),
        WriterPoll::SendFailed => Some(ControlFlow::Continue(())),
        _ => if reader_finished {
            Some(ControlFlow::Continue(()))
        } else {
            None
        },
    }
}

/// What one poll of the wait between attempts found.
#[derive(PartialEq, Eq, Structural, Clone, Copy, Debug)]
pub enum WaitPoll {
    /// The delay had already run out: `reconnect_remaining` found nothing left.
    DeadlinePassed,
    /// An event from the shadow arrived and was discarded: the server never saw
    /// the session it belonged to.
    EventDiscarded,
    /// Nothing arrived in the time that `reconnect_remaining` found left.
    TimedOut,
    /// The shadow has gone: its channel is closed.
    ShadowGone,
}

/// The time left of a wait of `reconnect_delay` between attempts, `elapsed`
/// after it began; `None` once the delay has run out. The client polls its
/// channel for no longer than what is left, so it resumes no earlier than the
/// delay allows.
pub fn reconnect_remaining(reconnect_delay: Duration, elapsed: Duration) -> (remaining: Option<
    Duration,
>)
    ensures
        duration_nanos(elapsed) > duration_nanos(reconnect_delay) ==> remaining is None,
        duration_nanos(elapsed) <= duration_nanos(reconnect_delay) ==> (remaining matches Some(d)
            && duration_nanos(d) == duration_nanos(reconnect_delay) - duration_nanos(elapsed)),
{
    duration_checked_sub(reconnect_delay, elapsed)
}

/// Whether the wait between attempts ends after `poll`: with `Continue` when the
/// delay has run out, with `Break` when the shadow has gone, and not at all
/// after a discarded event.
pub fn wait_to_reconnect(poll: WaitPoll) -> (next: Option<ControlFlow<()>>)
    ensures
        poll == WaitPoll::ShadowGone ==> next == Some(ControlFlow::<(), ()>::Break(())),
        (poll == WaitPoll::DeadlinePassed || poll == WaitPoll::TimedOut) ==> next == Some(
            ControlFlow::<(), ()>::Continue(()),
        ),
        poll == WaitPoll::EventDiscarded ==> next is None,
{
    match poll {
        WaitPoll::DeadlinePassed => Some(ControlFlow::Continue(())),
        WaitPoll::EventDiscarded => None,
        WaitPoll::TimedOut => Some(ControlFlow::Continue(())),
        WaitPoll::ShadowGone => Some(ControlFlow::Break(())),
    }
}

/// Replays a batch of events from the server onto the view, in order, and
/// returns the input that hands the shadow both the batch and the view it has
/// been applied to. The view is updated in place where the shadow has let go of
/// it, and in a copy where the shadow still holds it.
pub fn apply_view_events<V: ClientView>(view: &mut Arc<V>, events: Vec<V::ViewEvent>) -> (input:
    ShadowInput<V>)
    ensures
        exists|start: V| cloned(**old(view), start) && **final(view) == replayed(start, events@),
        input matches ShadowInput::ViewEvents(batch) && batch.view == *final(view)
            && batch.events@ == events@,
{
    let current = make_mut(view);
    apply_all(current, &events);
    ShadowInput::ViewEvents(ViewEventsShadowInput { view: share(view), events })
}

/// The inputs of one frame: everything that arrived since the last one, in
/// order, then the time.
pub fn gather_frame_inputs<V: ClientView>(
    inputs: &mut Vec<ShadowInput<V>>,
    arrived: Vec<ShadowInput<V>>,
    total_time: Duration,
    delta_time: Duration,
)
    ensures
        final(inputs)@ == arrived@.push(ShadowInput::Time(TimeShadowInput { total_time, delta_time })),
{
    inputs.clear();
    let mut arrived = arrived;
    inputs.append(&mut arrived);
    inputs.push(ShadowInput::Time(TimeShadowInput { total_time, delta_time }));
}

/// The work of one frame: the shadow is handed everything that arrived from the
/// network thread since the last frame, in order, then the time, and the events
/// it answers with are returned, in order, to be sent to the server.
pub fn shadow_frame<S: Shadow>(
    shadow: &mut S,
    shadow_inputs: &mut Vec<ShadowInput<S::View>>,
    arrived: Vec<ShadowInput<S::View>>,
    total_time: Duration,
    delta_time: Duration,
    renderer: S::Renderer<'_>,
) -> (events: Vec<S::ShadowEvent>)
    ensures
        final(shadow_inputs)@ == arrived@.push(
            ShadowInput::Time(TimeShadowInput { total_time, delta_time }),
        ),
        old(shadow).updated(final(shadow_inputs)@, *final(shadow), events@),
{
    gather_frame_inputs(shadow_inputs, arrived, total_time, delta_time);
    shadow.update(shadow_inputs.as_slice(), renderer)
}

} // verus!
