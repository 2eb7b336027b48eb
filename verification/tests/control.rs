use std::time::{Duration, Instant};

fn sleep(d: Duration) {
    let t = Instant::now();
    while t.elapsed() < d {}
}
use tgui_player::control::{
    judge_click, BusMessage, ClickVerdict, Command, PipelineState, PlayerControl, UiEvent,
    Widget, MAX_SEEK_SECONDS,
};
use tgui_player::gesture::{ClickGesture, ClickTy};

const S: u64 = 1_000_000_000;

fn seek(seconds: u64, key_unit: bool) -> Command {
    Command::Seek { nanos: seconds * S, key_unit }
}

fn play(checked: bool) -> Command {
    Command::SetState { state: PipelineState::Playing, checked }
}

/// A double click on `w` at a good interval, from an idle gesture.
fn double_click(c: &mut PlayerControl, w: Widget, current: PipelineState) -> Vec<Command> {
    assert!(c.on_click(Some(w), current, 0).is_empty());
    c.on_click(Some(w), current, 150_000_000)
}

#[test]
fn widget_names() {
    assert_eq!(Widget::from_name("video"), Widget::Video);
    assert_eq!(Widget::from_name("libtn"), Widget::SeekBack);
    assert_eq!(Widget::from_name("ribtn"), Widget::SeekForward);
    assert_eq!(Widget::from_name("pg"), Widget::ProgressBar);
    assert_eq!(Widget::from_name("Video"), Widget::Other);
    assert_eq!(Widget::from_name(""), Widget::Other);
}

#[test]
fn click_window_bounds() {
    assert_eq!(judge_click(0), ClickVerdict::TooSoon);
    assert_eq!(judge_click(99_999_999), ClickVerdict::TooSoon);
    assert_eq!(judge_click(100_000_000), ClickVerdict::Double);
    assert_eq!(judge_click(200_000_000), ClickVerdict::Double);
    assert_eq!(judge_click(200_000_001), ClickVerdict::Expired);
}

#[test]
fn gesture_arms_and_resets() {
    let mut g = ClickGesture::new();
    assert!(g.is_zero() && !g.is_one() && !g.is_two());
    g.timing();
    assert!(g.is_one());
    sleep(Duration::from_millis(2));
    assert!(g.dur() >= Duration::from_millis(2));
    g.reset();
    assert!(g.is_zero());
    assert!(ClickGesture::default().is_zero());
    assert_eq!(ClickTy::default(), ClickTy::Zero);
}

#[test]
fn duration_changed_seeks_then_advances() {
    let mut c = PlayerControl::new(0);
    let r = c.on_bus(BusMessage::DurationChanged);
    assert_eq!(r.commands, vec![seek(0, false), play(true)]);
    assert!(!r.stop);
    assert_eq!(c.position(), 1);
    let r = c.on_bus(BusMessage::DurationChanged);
    assert_eq!(r.commands, vec![seek(1, false), play(true)]);
    assert_eq!(c.position(), 2);
}

#[test]
fn eos_once_stops() {
    let mut c = PlayerControl::new(1);
    let r = c.on_bus(BusMessage::Eos);
    assert_eq!(r.commands, vec![Command::SetState { state: PipelineState::Null, checked: true }]);
    assert!(r.stop);
}

#[test]
fn eos_forever_rewinds() {
    let mut c = PlayerControl::new(0);
    c.on_bus(BusMessage::DurationChanged);
    c.on_bus(BusMessage::DurationChanged);
    let r = c.on_bus(BusMessage::Eos);
    assert_eq!(r.commands, vec![seek(0, false), play(true)]);
    assert!(!r.stop);
    assert_eq!(c.position(), 0);
}

#[test]
fn eos_with_more_loops_is_not_handled() {
    let c = PlayerControl::new(2);
    assert!(!c.handles_bus(BusMessage::Eos));
    assert!(c.handles_bus(BusMessage::Error));
    assert!(PlayerControl::new(1).handles_bus(BusMessage::Eos));
}

#[test]
fn error_stops_leniently() {
    let mut c = PlayerControl::new(0);
    let r = c.on_bus(BusMessage::Error);
    assert_eq!(r.commands, vec![Command::SetState { state: PipelineState::Null, checked: false }]);
    assert!(r.stop);
}

#[test]
fn other_messages_do_nothing() {
    let mut c = PlayerControl::new(0);
    for m in [BusMessage::StreamStart, BusMessage::Other] {
        let r = c.on_bus(m);
        assert!(r.commands.is_empty() && !r.stop);
    }
    assert_eq!(c.position(), 0);
}

#[test]
fn pause_then_resume() {
    let mut c = PlayerControl::new(0);
    let paused = double_click(&mut c, Widget::Video, PipelineState::Playing);
    assert_eq!(
        paused,
        vec![
            Command::ShowProgress(true),
            Command::SetState { state: PipelineState::Paused, checked: false }
        ]
    );
    assert!(c.gesture().is_zero());
    let resumed = double_click(&mut c, Widget::Video, PipelineState::Paused);
    assert_eq!(resumed, vec![Command::ShowProgress(false), play(false)]);
    assert!(double_click(&mut c, Widget::Video, PipelineState::Ready).is_empty());
}

#[test]
fn skip_back_then_forward() {
    let mut c = PlayerControl::new(0);
    for _ in 0..12 {
        c.on_bus(BusMessage::DurationChanged);
    }
    assert_eq!(c.position(), 12);
    assert_eq!(double_click(&mut c, Widget::SeekBack, PipelineState::Playing), vec![seek(7, true)]);
    assert_eq!(c.position(), 7);
    assert_eq!(
        double_click(&mut c, Widget::SeekForward, PipelineState::Playing),
        vec![seek(12, true), play(true)]
    );
    assert_eq!(c.position(), 12);
}

#[test]
fn skip_back_near_start_only_ends_gesture() {
    let mut c = PlayerControl::new(0);
    c.on_bus(BusMessage::DurationChanged);
    assert!(double_click(&mut c, Widget::SeekBack, PipelineState::Playing).is_empty());
    assert_eq!(c.position(), 1);
    assert!(c.gesture().is_zero());
}

#[test]
fn second_click_too_soon_or_too_late() {
    let mut c = PlayerControl::new(0);
    assert!(c.on_click(Some(Widget::SeekForward), PipelineState::Playing, 0).is_empty());
    assert!(c.on_click(Some(Widget::SeekForward), PipelineState::Playing, 50_000_000).is_empty());
    assert!(c.gesture().is_one());
    assert!(c.on_click(Some(Widget::SeekForward), PipelineState::Playing, 300_000_000).is_empty());
    assert!(c.gesture().is_zero());
    assert_eq!(c.position(), 0);
}

#[test]
fn inert_clicks() {
    let mut c = PlayerControl::new(0);
    assert!(c.on_click(None, PipelineState::Playing, 0).is_empty());
    assert!(c.on_click(Some(Widget::ProgressBar), PipelineState::Playing, 0).is_empty());
    assert!(c.gesture().is_zero());
    assert!(double_click(&mut c, Widget::Other, PipelineState::Playing).is_empty());
    assert!(c.gesture().is_zero());
}

#[test]
fn window_events() {
    let mut c = PlayerControl::new(0);
    let r = c.on_ui(UiEvent::Start, PipelineState::Paused);
    assert_eq!(r.commands, vec![Command::InterceptVolume, Command::InterceptBack]);
    assert!(!r.stop);
    let r = c.on_ui(UiEvent::Other, PipelineState::Paused);
    assert!(r.commands.is_empty() && !r.stop);
    let r = c.on_ui(UiEvent::Back, PipelineState::Paused);
    assert_eq!(r.commands, vec![Command::RequestExit]);
    assert!(r.stop);
}

#[test]
fn window_click_reads_clock() {
    let pause = vec![
        Command::ShowProgress(true),
        Command::SetState { state: PipelineState::Paused, checked: false },
    ];
    let mut c = PlayerControl::new(0);
    let r = c.on_ui(UiEvent::Click(Some(Widget::Video)), PipelineState::Playing);
    assert!(r.commands.is_empty() && !r.stop);
    assert!(c.gesture().is_one());
    // an immediate second click is too soon: ignored, still armed
    let r = c.on_ui(UiEvent::Click(Some(Widget::Video)), PipelineState::Playing);
    assert!(r.commands.is_empty());
    assert!(c.gesture().is_one());
    sleep(Duration::from_millis(150));
    let r = c.on_ui(UiEvent::Click(Some(Widget::Video)), PipelineState::Playing);
    // the second click lands in the window, or, on a loaded machine, after it;
    // either way the gesture ends
    assert!(r.commands == pause || r.commands.is_empty());
    assert!(c.gesture().is_zero());
}

#[test]
fn window_click_too_late_ends_gesture() {
    let mut c = PlayerControl::new(0);
    c.on_ui(UiEvent::Click(Some(Widget::Video)), PipelineState::Playing);
    sleep(Duration::from_millis(250));
    let r = c.on_ui(UiEvent::Click(Some(Widget::Video)), PipelineState::Playing);
    assert!(r.commands.is_empty());
    assert!(c.gesture().is_zero());
    assert_eq!(c.position(), 0);
}

#[test]
fn ignored_click_keeps_first_click_time() {
    let mut c = PlayerControl::new(0);
    c.on_ui(UiEvent::Click(Some(Widget::Video)), PipelineState::Playing);
    sleep(Duration::from_millis(30));
    // too soon, on the progress bar, and on an unregistered view: all ignored
    assert!(c.on_click(Some(Widget::Video), PipelineState::Playing, 1).is_empty());
    assert!(c.on_click(Some(Widget::ProgressBar), PipelineState::Playing, 1).is_empty());
    assert!(c.on_click(None, PipelineState::Playing, 1).is_empty());
    assert!(c.on_ui(UiEvent::Click(None), PipelineState::Playing).commands.is_empty());
    assert!(c.gesture().is_one());
    // the timer still runs from the first click
    assert!(c.gesture().dur() >= Duration::from_millis(30));
}

#[test]
fn second_click_acts_on_its_own_view() {
    let mut c = PlayerControl::new(0);
    assert!(c.on_click(Some(Widget::Video), PipelineState::Playing, 0).is_empty());
    assert_eq!(
        c.on_click(Some(Widget::SeekForward), PipelineState::Playing, 120_000_000),
        vec![seek(5, true), play(true)]
    );
    assert_eq!(c.position(), 5);
    assert!(c.gesture().is_zero());
}

#[test]
fn seek_forward_bound() {
    let c = PlayerControl::new(0);
    assert!(c.handles_ui(UiEvent::Click(Some(Widget::SeekForward))));
    assert!(c.handles_ui(UiEvent::Back));
    assert!(MAX_SEEK_SECONDS.checked_mul(S).is_some());
    assert!((MAX_SEEK_SECONDS + 1).checked_mul(S).map_or(true, |n| n == u64::MAX));
}
