use std::ops::ControlFlow;
use std::sync::Arc;
use std::time::Duration;
use ticklore::client::{
    apply_view_events, gather_frame_inputs, reconnect_remaining, shadow_frame, wait_to_reconnect,
    writer_step, ClientLifecycle, ClientPhase, WaitPoll, WriterPoll,
};
use ticklore::model::{ClientView, Shadow, ShadowEvent, ShadowInput, ViewEvent};

#[derive(Clone, Debug, PartialEq)]
struct Log {
    entries: Vec<u32>,
}

#[derive(Clone, Debug, PartialEq)]
struct Append(u32);

impl ViewEvent for Append {}

impl ClientView for Log {
    type ViewEvent = Append;

    fn apply(&mut self, view_event: &Append) {
        self.entries.push(view_event.0);
    }
}

#[derive(Debug, PartialEq)]
struct Click(u32);

impl ShadowEvent for Click {}

fn name(input: &ShadowInput<Log>) -> String {
    match input {
        ShadowInput::Time(t) => format!("time {} {}", t.total_time.as_millis(), t.delta_time.as_millis()),
        ShadowInput::Connecting => "connecting".to_string(),
        ShadowInput::ConnectionFailed => "failed".to_string(),
        ShadowInput::Connected(view) => format!("connected {:?}", view.entries),
        ShadowInput::Disconnected => "disconnected".to_string(),
        ShadowInput::ViewEvents(batch) => format!("events {:?} {}", batch.view.entries, batch.events.len()),
    }
}

#[test]
fn lifecycle_of_two_attempts() {
    let mut seen = vec![];
    let (mut lifecycle, first) = ClientLifecycle::start::<Log>();
    seen.push(name(&first));
    seen.push(name(&lifecycle.connection_failed::<Log>()));
    let next = lifecycle.wait_ended::<Log>(ControlFlow::Continue(())).expect("another attempt");
    seen.push(name(&next));
    let (view, connected) = lifecycle.connected(Log { entries: vec![1] });
    assert_eq!(*view, Log { entries: vec![1] });
    seen.push(name(&connected));
    seen.push(name(&lifecycle.session_ended::<Log>(ControlFlow::Continue(()))));
    assert!(!lifecycle.is_stopped());
    assert!(lifecycle.wait_ended::<Log>(ControlFlow::Break(())).is_none());
    assert!(lifecycle.is_stopped());
    assert_eq!(seen, vec!["connecting", "failed", "connecting", "connected [1]", "disconnected"]);
}

#[test]
fn lifecycle_stops_when_session_ends_with_break() {
    let (mut lifecycle, _) = ClientLifecycle::start::<Log>();
    let _ = lifecycle.connected(Log { entries: vec![] });
    let notice = lifecycle.session_ended::<Log>(ControlFlow::Break(()));
    assert_eq!(name(&notice), "disconnected");
    assert!(lifecycle.is_stopped());
}

#[test]
fn writer_decisions() {
    assert_eq!(writer_step(WriterPoll::ShadowGone, false), Some(ControlFlow::Break(())));
    assert_eq!(writer_step(WriterPoll::ShadowGone, true), Some(ControlFlow::Break(())));
    assert_eq!(writer_step(WriterPoll::SendFailed, false), Some(ControlFlow::Continue(())));
    assert_eq!(writer_step(WriterPoll::Sent, false), None);
    assert_eq!(writer_step(WriterPoll::Sent, true), Some(ControlFlow::Continue(())));
    assert_eq!(writer_step(WriterPoll::NothingArrived, false), None);
    assert_eq!(writer_step(WriterPoll::NothingArrived, true), Some(ControlFlow::Continue(())));
}

#[test]
fn reconnect_wait_decisions() {
    assert_eq!(wait_to_reconnect(WaitPoll::DeadlinePassed), Some(ControlFlow::Continue(())));
    assert_eq!(wait_to_reconnect(WaitPoll::TimedOut), Some(ControlFlow::Continue(())));
    assert_eq!(wait_to_reconnect(WaitPoll::EventDiscarded), None);
    assert_eq!(wait_to_reconnect(WaitPoll::ShadowGone), Some(ControlFlow::Break(())));
}

#[test]
fn view_events_apply_in_place_when_unshared() {
    let mut view = Arc::new(Log { entries: vec![1] });
    let input = apply_view_events(&mut view, vec![Append(2), Append(3)]);
    assert_eq!(view.entries, vec![1, 2, 3]);
    match input {
        ShadowInput::ViewEvents(batch) => {
            assert!(Arc::ptr_eq(&batch.view, &view));
            assert_eq!(batch.events, vec![Append(2), Append(3)]);
        },
        _ => panic!("expected a batch of view events"),
    }
}

#[test]
fn view_events_copy_when_shadow_holds_the_view() {
    let mut view = Arc::new(Log { entries: vec![1] });
    let held = Arc::clone(&view);
    let _ = apply_view_events(&mut view, vec![Append(5)]);
    assert_eq!(held.entries, vec![1]);
    assert_eq!(view.entries, vec![1, 5]);
    let _ = apply_view_events(&mut view, vec![Append(6), Append(7)]);
    assert_eq!(view.entries, vec![1, 5, 6, 7]);
}

#[test]
fn frame_inputs_end_with_time() {
    let mut inputs = vec![ShadowInput::<Log>::Disconnected];
    gather_frame_inputs(
        &mut inputs,
        vec![ShadowInput::Connecting, ShadowInput::ConnectionFailed],
        Duration::from_millis(900),
        Duration::from_millis(16),
    );
    let names: Vec<String> = inputs.iter().map(name).collect();
    assert_eq!(names, vec!["connecting", "failed", "time 900 16"]);
}

struct Recorder {
    frames: Vec<Vec<String>>,
}

impl Shadow for Recorder {
    type ShadowEvent = Click;
    type View = Log;
    type Renderer<'a> = &'a mut Vec<String>;

    fn update(&mut self, inputs: &[ShadowInput<Log>], renderer: &mut Vec<String>) -> Vec<Click> {
        self.frames.push(inputs.iter().map(name).collect());
        renderer.push(format!("frame {}", self.frames.len()));
        vec![Click(self.frames.len() as u32), Click(100)]
    }
}

#[test]
fn shadow_frame_gets_arrivals_then_time_and_returns_its_events() {
    let mut shadow = Recorder { frames: vec![] };
    let mut inputs = vec![ShadowInput::<Log>::Disconnected];
    let mut drawn = vec![];

    let events = shadow_frame(
        &mut shadow,
        &mut inputs,
        vec![ShadowInput::Connecting, ShadowInput::ConnectionFailed],
        Duration::from_millis(10),
        Duration::from_millis(10),
        &mut drawn,
    );
    assert_eq!(events, vec![Click(1), Click(100)]);
    let events = shadow_frame(&mut shadow, &mut inputs, vec![], Duration::from_millis(26), Duration::from_millis(16), &mut drawn);
    assert_eq!(events, vec![Click(2), Click(100)]);

    assert_eq!(
        shadow.frames,
        vec![vec!["connecting".to_string(), "failed".to_string(), "time 10 10".to_string()], vec!["time 26 16".to_string()]]
    );
    assert_eq!(inputs.iter().map(name).collect::<Vec<_>>(), vec!["time 26 16".to_string()]);
    assert_eq!(drawn, vec!["frame 1".to_string(), "frame 2".to_string()]);
}

#[test]
fn reconnect_wait_leaves_the_rest_of_the_delay() {
    let delay = Duration::from_secs(3);
    assert_eq!(reconnect_remaining(delay, Duration::ZERO), Some(Duration::from_secs(3)));
    assert_eq!(reconnect_remaining(delay, Duration::from_millis(1250)), Some(Duration::from_millis(1750)));
    assert_eq!(reconnect_remaining(delay, Duration::from_secs(3)), Some(Duration::ZERO));
    assert_eq!(reconnect_remaining(delay, Duration::from_millis(3001)), None);
}

#[test]
fn lifecycle_phase_is_visible() {
    let (mut lifecycle, _) = ClientLifecycle::start::<Log>();
    assert_eq!(lifecycle.current_phase(), ClientPhase::Connecting);
    let _ = lifecycle.connection_failed::<Log>();
    assert_eq!(lifecycle.current_phase(), ClientPhase::Waiting);
}
