//! The player's decisions. The media pipeline reports what happens to it
//! and the window reports what the user does; for each report the player
//! updates its own state and answers with the commands to carry out, and
//! whether to stop listening.
use crate::gesture::{duration_as_nanos, ClickGesture, ClickTy};
use crate::text::same_text;
use vstd::prelude::*;

verus! {

/// How far, in seconds, one skip moves the playback position.
pub const SEEK_STEP: u64 = 5;

/// Nanoseconds in a second: the pipeline's clock counts nanoseconds.
pub const NANOS_PER_SECOND: u64 = 1_000_000_000;

/// The latest whole second that the pipeline's clock can name.
pub const MAX_SEEK_SECONDS: u64 = 18_446_744_073;

/// A second click that comes sooner than this after the first is ignored.
pub const DOUBLE_CLICK_MIN_NANOS: u128 = 100_000_000;

/// A second click that comes later than this after the first ends the gesture.
pub const DOUBLE_CLICK_MAX_NANOS: u128 = 200_000_000;

/// The states of the media pipeline.
#[derive(Debug, Clone, Copy, PartialEq, Eq, Structural)]
pub enum PipelineState {
    VoidPending,
    Null,
    Ready,
    Paused,
    Playing,
}

/// What the pipeline reports.
#[derive(Debug, Clone, Copy, PartialEq, Eq, Structural)]
pub enum BusMessage {
    /// The length of the media is known or has changed.
    DurationChanged,
    /// A stream starts.
    StreamStart,
    /// The end of the media.
    Eos,
    /// The pipeline failed.
    Error,
    /// Anything else.
    Other,
}

/// The views of the window that a click can land on.
#[derive(Debug, Clone, Copy, PartialEq, Eq, Structural)]
pub enum Widget {
    /// The picture (`video`): a double click pauses or resumes.
    Video,
    /// The left button (`libtn`): a double click skips back.
    SeekBack,
    /// The right button (`ribtn`): a double click skips forward.
    SeekForward,
    /// The progress bar (`pg`).
    ProgressBar,
    /// Any other registered view.
    Other,
}

/// What the window reports.
#[derive(Debug, Clone, Copy, PartialEq, Eq, Structural)]
pub enum UiEvent {
    /// A click, on the registered view it landed on (`None` for a view that
    /// is not registered).
    Click(Option<Widget>),
    /// The back button.
    Back,
    /// The window has started.
    Start,
    /// Anything else.
    Other,
}

/// What the player asks of the pipeline and the window.
#[derive(Debug, Clone, Copy, PartialEq, Eq, Structural)]
pub enum Command {
    /// Move the playback to `nanos` (flushing; to the nearest key frame
    /// where `key_unit`), asking again until the pipeline accepts.
    Seek { nanos: u64, key_unit: bool },
    /// Bring the pipeline to `state`; where `checked`, a refusal is fatal,
    /// otherwise it is ignored.
    SetState { state: PipelineState, checked: bool },
    /// Show or hide the progress bar.
    ShowProgress(bool),
    /// Have the window deliver the volume keys to the player.
    InterceptVolume,
    /// Have the window deliver the back button to the player.
    InterceptBack,
    /// Ask the whole program to end.
    RequestExit,
}

/// The answer to one report.
pub struct Reaction {
    /// Carried out in order.
    pub commands: Vec<Command>,
    /// Stop listening to the pipeline.
    pub stop: bool,
}

/// How a second click is judged by the time since the first.
#[derive(Debug, Clone, Copy, PartialEq, Eq, Structural)]
pub enum ClickVerdict {
    /// Too soon: ignored, the gesture stays armed.
    TooSoon,
    /// A double click.
    Double,
    /// Too late: the gesture ends without acting.
    Expired,
}

/// The player's state as plain values.
pub struct ControlView {
    /// The playback position that the player keeps, in seconds.
    pub position: u64,
    /// How many clicks the pending gesture has seen.
    pub gesture: ClickTy,
    /// How many times to play the media: zero loops forever.
    pub loop_nums: usize,
}

/// A command to move the playback to `seconds`.
pub open spec fn seek_to(seconds: int, key_unit: bool) -> Command {
    Command::Seek { nanos: (seconds * NANOS_PER_SECOND) as u64, key_unit }
}

/// The judgement of a second click `elapsed` nanoseconds after the first:
/// a double click from `DOUBLE_CLICK_MIN_NANOS` to `DOUBLE_CLICK_MAX_NANOS`,
/// both included.
pub open spec fn verdict(elapsed: u128) -> ClickVerdict {
    if elapsed < DOUBLE_CLICK_MIN_NANOS {
        ClickVerdict::TooSoon
    } else if elapsed > DOUBLE_CLICK_MAX_NANOS {
        ClickVerdict::Expired
    } else {
        ClickVerdict::Double
    }
}

/// The view that the window registers under `name`.
pub open spec fn widget_named(name: Seq<char>) -> Widget {
    if name == seq!['v', 'i', 'd', 'e', 'o'] {
        Widget::Video
    } else if name == seq!['l', 'i', 'b', 't', 'n'] {
        Widget::SeekBack
    } else if name == seq!['r', 'i', 'b', 't', 'n'] {
        Widget::SeekForward
    } else if name == seq!['p', 'g'] {
        Widget::ProgressBar
    } else {
        Widget::Other
    }
}

/// The reports that the player takes from state `s`: all but a seek beyond
/// the clock's range, and the end of the media with a loop count above
/// one, which the player does not support.
pub open spec fn bus_defined(s: ControlView, msg: BusMessage) -> bool {
    match msg {
        BusMessage::DurationChanged => s.position <= MAX_SEEK_SECONDS,
        BusMessage::Eos => s.loop_nums <= 1,
        _ => true,
    }
}

/// The answer to `msg` from state `s`: the next state, the commands, and
/// whether to stop.
/// - The length becomes known: seek to the kept position, play, and keep
///   the position one second further on.
/// - The end of the media: with a loop count of one, stop the pipeline and
///   stop listening; with zero, rewind to the start and play again.
/// - A failure: stop the pipeline (ignoring a refusal) and stop listening.
/// - Anything else changes nothing.
pub open spec fn bus_step(s: ControlView, msg: BusMessage) -> (ControlView, Seq<Command>, bool) {
    match msg {
        BusMessage::DurationChanged => (
            ControlView { position: (s.position + 1) as u64, ..s },
            seq![
                seek_to(s.position as int, false),
                Command::SetState { state: PipelineState::Playing, checked: true },
            ],
            false,
        ),
        BusMessage::Eos => if s.loop_nums == 1 {
            (s, seq![Command::SetState { state: PipelineState::Null, checked: true }], true)
        } else {
            (
                ControlView { position: 0, ..s },
                seq![
                    seek_to(0, false),
                    Command::SetState { state: PipelineState::Playing, checked: true },
                ],
                false,
            )
        },
        BusMessage::Error => (
            s,
            seq![Command::SetState { state: PipelineState::Null, checked: false }],
            true,
        ),
        _ => (s, seq![], false),
    }
}

/// What a double click on `w` does, from playback position `position` with
/// the pipeline in `current`: the new position and the commands.
/// - The picture: pause a playing pipeline and show the progress bar, or
///   resume a paused one and hide it; in any other state nothing.
/// - Skip back: five seconds back, to the nearest key frame; nothing where
///   that would go before the start.
/// - Skip forward: five seconds on, to the nearest key frame, and play.
pub open spec fn widget_action(position: u64, w: Widget, current: PipelineState) -> (
    u64,
    Seq<Command>,
) {
    match w {
        Widget::Video => match current {
            PipelineState::Playing => (
                position,
                seq![
                    Command::ShowProgress(true),
                    Command::SetState { state: PipelineState::Paused, checked: false },
                ],
            ),
            PipelineState::Paused => (
                position,
                seq![
                    Command::ShowProgress(false),
                    Command::SetState { state: PipelineState::Playing, checked: false },
                ],
            ),
            _ => (position, seq![]),
        },
        Widget::SeekBack => if position < SEEK_STEP {
            (position, seq![])
        } else {
            ((position - SEEK_STEP) as u64, seq![seek_to(position - SEEK_STEP, true)])
        },
        Widget::SeekForward => (
            (position + SEEK_STEP) as u64,
            seq![
                seek_to(position + SEEK_STEP, true),
                Command::SetState { state: PipelineState::Playing, checked: true },
            ],
        ),
        _ => (position, seq![]),
    }
}

/// The clicks that the player takes from state `s`, `elapsed` nanoseconds
/// after the click that armed the gesture: all but a double click that
/// would skip forward beyond the clock's range.
pub open spec fn click_defined(s: ControlView, target: Option<Widget>, elapsed: u128) -> bool {
    (target == Some(Widget::SeekForward) && s.gesture == ClickTy::One && verdict(elapsed)
        == ClickVerdict::Double) ==> s.position + SEEK_STEP <= MAX_SEEK_SECONDS
}

/// The clicks that leave the player exactly as it was, the time of a
/// pending first click included: a click on a view that is not registered,
/// on the progress bar, or one that comes too soon after the first.
pub open spec fn click_ignored(s: ControlView, target: Option<Widget>, elapsed: u128) -> bool {
    ||| target is None
    ||| target == Some(Widget::ProgressBar)
    ||| (s.gesture == ClickTy::One && verdict(elapsed) == ClickVerdict::TooSoon)
}

/// The answer to a click on `target`, `elapsed` nanoseconds after the click
/// that armed the gesture (not looked at where none did).
/// - A view that is not registered, and the progress bar, change nothing.
/// - A click that finds the gesture not armed arms it.
/// - On an armed gesture: too soon, nothing; too late, the gesture ends;
///   a double click acts on the view and ends the gesture.
pub open spec fn click_step(
    s: ControlView,
    target: Option<Widget>,
    current: PipelineState,
    elapsed: u128,
) -> (ControlView, Seq<Command>) {
    match target {
        None => (s, seq![]),
        Some(w) => if w == Widget::ProgressBar {
            (s, seq![])
        } else if s.gesture == ClickTy::One {
            match verdict(elapsed) {
                ClickVerdict::TooSoon => (s, seq![]),
                ClickVerdict::Expired => (ControlView { gesture: ClickTy::Zero, ..s }, seq![]),
                ClickVerdict::Double => {
                    let (p, c) = widget_action(s.position, w, current);
                    (ControlView { position: p, gesture: ClickTy::Zero, ..s }, c)
                },
            }
        } else {
            (ControlView { gesture: ClickTy::One, ..s }, seq![])
        },
    }
}

/// The window's reports that the player takes from state `s`. The time
/// of a click is not known beforehand, so a click on the forward button of
/// an armed gesture is taken only where a skip forward stays in the clock's
/// range.
pub open spec fn ui_defined(s: ControlView, ev: UiEvent) -> bool {
    match ev {
        UiEvent::Click(t) => (t == Some(Widget::SeekForward) && s.gesture == ClickTy::One)
            ==> s.position + SEEK_STEP <= MAX_SEEK_SECONDS,
        _ => true,
    }
}

/// The answer to `ev`, with `elapsed` as for `click_step`.
/// - The back button: ask the program to end and stop listening.
/// - The window's start: have it deliver the volume keys and the back button.
pub open spec fn ui_step(s: ControlView, ev: UiEvent, current: PipelineState, elapsed: u128) -> (
    ControlView,
    Seq<Command>,
    bool,
) {
    match ev {
        UiEvent::Click(t) => {
            let (n, c) = click_step(s, t, current, elapsed);
            (n, c, false)
        },
        UiEvent::Back => (s, seq![Command::RequestExit], true),
        UiEvent::Start => (s, seq![Command::InterceptVolume, Command::InterceptBack], false),
        UiEvent::Other => (s, seq![], false),
    }
}

/// Whether the answer to `ev` depends on the time since the first click.
pub open spec fn reads_clock(s: ControlView, ev: UiEvent) -> bool {
    &&& ev matches UiEvent::Click(Some(w))
    &&& w != Widget::ProgressBar
    &&& s.gesture == ClickTy::One
}


/// Pausing the picture with a double click and resuming it with another
/// brings the player back to where it was: the same state, and the second
/// double click undoes the first one's commands (the progress bar shown,
/// then hidden; the pipeline paused, then played). The clicks that arm the
/// gesture issue nothing.
pub proof fn law_pause_then_resume(s: ControlView, e1: u128, e2: u128, e3: u128, e4: u128)
    requires
        s.gesture == ClickTy::Zero,
        verdict(e2) == ClickVerdict::Double,
        verdict(e4) == ClickVerdict::Double,
    ensures
        ({
            let (s1, c1) = click_step(s, Some(Widget::Video), PipelineState::Playing, e1);
            let (s2, c2) = click_step(s1, Some(Widget::Video), PipelineState::Playing, e2);
            let (s3, c3) = click_step(s2, Some(Widget::Video), PipelineState::Paused, e3);
            let (s4, c4) = click_step(s3, Some(Widget::Video), PipelineState::Paused, e4);
            &&& s4 == s
            &&& c1 == Seq::<Command>::empty()
            &&& c3 == Seq::<Command>::empty()
            &&& c2 == seq![
                Command::ShowProgress(true),
                Command::SetState { state: PipelineState::Paused, checked: false },
            ]
            &&& c4 == seq![
                Command::ShowProgress(false),
                Command::SetState { state: PipelineState::Playing, checked: false },
            ]
        }),
{
}

/// Skipping back and then forward, each by a double click, brings the
/// player back to the position it kept, where there are five seconds to
/// skip back over: it seeks five seconds back, then to the position again,
/// and plays.
pub proof fn law_skip_back_then_forward(
    s: ControlView,
    current: PipelineState,
    e1: u128,
    e2: u128,
    e3: u128,
    e4: u128,
)
    requires
        s.gesture == ClickTy::Zero,
        SEEK_STEP <= s.position <= MAX_SEEK_SECONDS,
        verdict(e2) == ClickVerdict::Double,
        verdict(e4) == ClickVerdict::Double,
    ensures
        ({
            let (s1, c1) = click_step(s, Some(Widget::SeekBack), current, e1);
            let (s2, c2) = click_step(s1, Some(Widget::SeekBack), current, e2);
            let (s3, c3) = click_step(s2, Some(Widget::SeekForward), current, e3);
            let (s4, c4) = click_step(s3, Some(Widget::SeekForward), current, e4);
            &&& click_defined(s3, Some(Widget::SeekForward), e4)
            &&& s4 == s
            &&& c2 == seq![seek_to(s.position - SEEK_STEP, true)]
            &&& c4 == seq![
                seek_to(s.position as int, true),
                Command::SetState { state: PipelineState::Playing, checked: true },
            ]
        }),
{
}

/// A skip back never goes before the start of the media: the position the
/// player keeps does not drop below zero, and where fewer than five seconds
/// are behind it a double click on the back button only ends the gesture.
pub proof fn law_skip_back_stays_in_media(s: ControlView, current: PipelineState, e: u128)
    requires
        s.gesture == ClickTy::One,
        s.position < SEEK_STEP,
        verdict(e) == ClickVerdict::Double,
    ensures
        click_step(s, Some(Widget::SeekBack), current, e) == (
            ControlView { gesture: ClickTy::Zero, ..s },
            Seq::<Command>::empty(),
        ),
{
}

/// The gesture counts at most one pending click: from a state that has not
/// counted two, no report leads to one that has.
pub proof fn law_gesture_counts_at_most_one(
    s: ControlView,
    msg: BusMessage,
    ev: UiEvent,
    current: PipelineState,
    e: u128,
)
    requires
        s.gesture != ClickTy::Two,
    ensures
        bus_step(s, msg).0.gesture == s.gesture,
        ui_step(s, ev, current, e).0.gesture != ClickTy::Two,
{
}

/// A seek from a skip or from the rewind at the end of the media goes to
/// exactly the position the player keeps afterwards; the seek when the
/// length becomes known goes to the second before it.
pub proof fn law_seeks_follow_position(
    s: ControlView,
    msg: BusMessage,
    t: Option<Widget>,
    current: PipelineState,
    e: u128,
)
    requires
        click_defined(s, t, e),
    ensures
        ({
            let (n, c) = click_step(s, t, current, e);
            forall|i: int|
                0 <= i < c.len() && (#[trigger] c[i] is Seek) ==> c[i] == seek_to(
                    n.position as int,
                    true,
                )
        }),
        ({
            let (n, c, stop) = bus_step(s, msg);
            &&& msg == BusMessage::Eos && !stop ==> n.position == 0 && c[0] == seek_to(0, false)
            &&& msg == BusMessage::DurationChanged && s.position <= MAX_SEEK_SECONDS ==> n.position
                == s.position + 1 && c[0] == seek_to(n.position - 1, false)
        }),
{
}

/// The player stops listening only at the end of media that plays once, on
/// a failure of the pipeline, or on the back button; whenever the pipeline
/// is the cause, it is brought to `Null` first.
pub proof fn law_stops(s: ControlView, msg: BusMessage, ev: UiEvent, current: PipelineState, e: u128)
    requires
        bus_defined(s, msg),
    ensures
        bus_step(s, msg).2 <==> (msg == BusMessage::Error || (msg == BusMessage::Eos
            && s.loop_nums == 1)),
        bus_step(s, msg).2 ==> bus_step(s, msg).1.last() is SetState && bus_step(s, msg).1.last()->state
            == PipelineState::Null,
        ui_step(s, ev, current, e).2 <==> ev == UiEvent::Back,
{
}

/// Clicks on the progress bar, or on a view that is not registered, change
/// nothing and issue nothing, whatever the gesture.
pub proof fn law_inert_clicks(s: ControlView, current: PipelineState, e: u128)
    ensures
        click_step(s, None, current, e) == (s, Seq::<Command>::empty()),
        click_step(s, Some(Widget::ProgressBar), current, e) == (s, Seq::<Command>::empty()),
{
}


/// A second click is judged by the whole time since the first, in
/// nanoseconds: sooner than a tenth of a second it is too soon, up to a
/// fifth of a second (both ends included) it makes a double click, and any
/// later click, however much later, never counts.
pub proof fn law_click_window(elapsed: u128)
    ensures
        (verdict(elapsed) == ClickVerdict::TooSoon) == (elapsed < 100_000_000),
        (verdict(elapsed) == ClickVerdict::Double) == (100_000_000 <= elapsed <= 200_000_000),
        (verdict(elapsed) == ClickVerdict::Expired) == (elapsed > 200_000_000),
        forall|a: u128, b: u128|
            a <= b && #[trigger] verdict(a) == ClickVerdict::Expired ==> #[trigger] verdict(b)
                == ClickVerdict::Expired,
{
}

/// No report changes how many times the media is played.
pub proof fn law_loop_count_kept(
    s: ControlView,
    msg: BusMessage,
    ev: UiEvent,
    current: PipelineState,
    e: u128,
)
    ensures
        bus_step(s, msg).0.loop_nums == s.loop_nums,
        ui_step(s, ev, current, e).0.loop_nums == s.loop_nums,
{
}

/// Playing forever: every end of the media, the first and every later one,
/// rewinds to the start and plays again, and never stops the player.
pub proof fn law_loop_forever(s: ControlView)
    requires
        s.loop_nums == 0,
    ensures
        ({
            let (s1, c1, stop1) = bus_step(s, BusMessage::Eos);
            let (s2, c2, stop2) = bus_step(s1, BusMessage::Eos);
            &&& !stop1 && !stop2
            &&& s1.loop_nums == 0 && s2.loop_nums == 0
            &&& s1.position == 0 && s2.position == 0
            &&& c1 == c2
            &&& c1 == seq![
                Command::Seek { nanos: 0, key_unit: false },
                Command::SetState { state: PipelineState::Playing, checked: true },
            ]
        }),
{
}

impl Widget {
    /// The view registered under `name`.
    pub fn from_name(name: &str) -> (w: Widget)
        ensures
            w == widget_named(name@),
    {
        proof {
            reveal_strlit("video");
            reveal_strlit("libtn");
            reveal_strlit("ribtn");
            reveal_strlit("pg");
            assert("video"@ =~= seq!['v', 'i', 'd', 'e', 'o']);
            assert("libtn"@ =~= seq!['l', 'i', 'b', 't', 'n']);
            assert("ribtn"@ =~= seq!['r', 'i', 'b', 't', 'n']);
            assert("pg"@ =~= seq!['p', 'g']);
        }
        if same_text(name, "video") {
            Widget::Video
        } else if same_text(name, "libtn") {
            Widget::SeekBack
        } else if same_text(name, "ribtn") {
            Widget::SeekForward
        } else if same_text(name, "pg") {
            Widget::ProgressBar
        } else {
            Widget::Other
        }
    }
}

/// Judges a second click `elapsed` nanoseconds after the first.
pub fn judge_click(elapsed: u128) -> (v: ClickVerdict)
    ensures
        v == verdict(elapsed),
        (v == ClickVerdict::TooSoon) == (elapsed < 100_000_000),
        (v == ClickVerdict::Double) == (100_000_000 <= elapsed <= 200_000_000),
        (v == ClickVerdict::Expired) == (elapsed > 200_000_000),
{
    if elapsed < DOUBLE_CLICK_MIN_NANOS {
        ClickVerdict::TooSoon
    } else if elapsed > DOUBLE_CLICK_MAX_NANOS {
        ClickVerdict::Expired
    } else {
        ClickVerdict::Double
    }
}

fn seek_command(seconds: u64, key_unit: bool) -> (c: Command)
    requires
        seconds <= MAX_SEEK_SECONDS,
    ensures
        c == seek_to(seconds as int, key_unit),
{
    Command::Seek { nanos: seconds * NANOS_PER_SECOND, key_unit }
}

/// The player: the playback position it keeps, the pending click gesture,
/// and how many times to play the media.
pub struct PlayerControl {
    position: u64,
    gesture: ClickGesture,
    loop_nums: usize,
}

impl View for PlayerControl {
    type V = ControlView;

    closed spec fn view(&self) -> ControlView {
        ControlView { position: self.position, gesture: self.gesture@, loop_nums: self.loop_nums }
    }
}

impl PlayerControl {
    /// The kept position stays within one second past the clock's range:
    /// every step that moves it forward first seeks to where it ends up or
    /// to where it was.
    #[verifier::type_invariant]
    spec fn position_in_range(self) -> bool {
        self.position <= MAX_SEEK_SECONDS + 1
    }

    /// A player at the start of the media, with no click pending, that
    /// plays the media `loop_nums` times (zero: forever).
    pub fn new(loop_nums: usize) -> (c: Self)
        ensures
            c@ == (ControlView { position: 0, gesture: ClickTy::Zero, loop_nums }),
    {
        PlayerControl { position: 0, gesture: ClickGesture::new(), loop_nums }
    }

    /// The playback position kept, in seconds. It is never more than one
    /// second past the clock's range, so every seek to it or before it
    /// names a time the clock can hold.
    pub fn position(&self) -> (p: u64)
        ensures
            p == self@.position,
            p <= MAX_SEEK_SECONDS + 1,
    {
        proof {
            use_type_invariant(self);
        }
        self.position
    }

    /// How many times the media is played.
    pub fn loop_nums(&self) -> (n: usize)
        ensures
            n == self@.loop_nums,
    {
        self.loop_nums
    }

    /// The pending click gesture.
    pub fn gesture(&self) -> (g: &ClickGesture)
        ensures
            g@ == self@.gesture,
    {
        &self.gesture
    }

    /// Whether `on_bus` takes `msg` in this state.
    pub fn handles_bus(&self, msg: BusMessage) -> (b: bool)
        ensures
            b == bus_defined(self@, msg),
    {
        match msg {
            BusMessage::DurationChanged => self.position <= MAX_SEEK_SECONDS,
            BusMessage::Eos => self.loop_nums <= 1,
            _ => true,
        }
    }

    /// Whether `on_ui` takes `ev` in this state (and then `on_click` takes
    /// its click whatever the time).
    pub fn handles_ui(&self, ev: UiEvent) -> (b: bool)
        ensures
            b == ui_defined(self@, ev),
    {
        match ev {
            UiEvent::Click(Some(Widget::SeekForward)) => !self.gesture.is_one() || self.position
                <= MAX_SEEK_SECONDS - SEEK_STEP,
            _ => true,
        }
    }

    /// Answers a report of the pipeline.
    pub fn on_bus(&mut self, msg: BusMessage) -> (r: Reaction)
        requires
            bus_defined(old(self)@, msg),
        ensures
            (final(self)@, r.commands@, r.stop) == bus_step(old(self)@, msg),
            final(self)@.loop_nums == old(self)@.loop_nums,
    {
        proof {
            use_type_invariant(&*self);
        }
        match msg {
            BusMessage::DurationChanged => {
                let seek = seek_command(self.position, false);
                self.position = self.position + 1;
                Reaction {
                    commands: vec![
                        seek,
                        Command::SetState { state: PipelineState::Playing, checked: true },
                    ],
                    stop: false,
                }
            },
            BusMessage::Eos => {
                if self.loop_nums == 1 {
                    Reaction {
                        commands: vec![Command::SetState { state: PipelineState::Null, checked: true }],
                        stop: true,
                    }
                } else {
                    self.position = 0;
                    Reaction {
                        commands: vec![
                            seek_command(0, false),
                            Command::SetState { state: PipelineState::Playing, checked: true },
                        ],
                        stop: false,
                    }
                }
            },
            BusMessage::Error => Reaction {
                commands: vec![Command::SetState { state: PipelineState::Null, checked: false }],
                stop: true,
            },
            _ => Reaction { commands: Vec::new(), stop: false },
        }
    }

    fn double_click(&mut self, w: Widget, current: PipelineState) -> (cmds: Vec<Command>)
        requires
            w == Widget::SeekForward ==> old(self).position + SEEK_STEP <= MAX_SEEK_SECONDS,
            old(self).position <= MAX_SEEK_SECONDS + 1,
        ensures
            (final(self).position, cmds@) == widget_action(old(self).position, w, current),
            final(self).gesture@ == old(self).gesture@,
            final(self).loop_nums == old(self).loop_nums,
    {
        match w {
            Widget::Video => match current {
                PipelineState::Playing => vec![
                    Command::ShowProgress(true),
                    Command::SetState { state: PipelineState::Paused, checked: false },
                ],
                PipelineState::Paused => vec![
                    Command::ShowProgress(false),
                    Command::SetState { state: PipelineState::Playing, checked: false },
                ],
                _ => Vec::new(),
            },
            Widget::SeekBack => {
                if self.position < SEEK_STEP {
                    Vec::new()
                } else {
                    self.position = self.position - SEEK_STEP;
                    vec![seek_command(self.position, true)]
                }
            },
            Widget::SeekForward => {
                self.position = self.position + SEEK_STEP;
                vec![
                    seek_command(self.position, true),
                    Command::SetState { state: PipelineState::Playing, checked: true },
                ]
            },
            _ => Vec::new(),
        }
    }

    /// Answers a click on `target`, `elapsed` nanoseconds after the click
    /// that armed the gesture, with the pipeline in `current`. A click that
    /// is ignored keeps the player exactly as it was: a pending gesture
    /// keeps the time of its first click.
    pub fn on_click(&mut self, target: Option<Widget>, current: PipelineState, elapsed: u128) -> (cmds: Vec<Command>)
        requires
            click_defined(old(self)@, target, elapsed),
        ensures
            (final(self)@, cmds@) == click_step(old(self)@, target, current, elapsed),
            click_ignored(old(self)@, target, elapsed) ==> *final(self) == *old(self),
            final(self)@.loop_nums == old(self)@.loop_nums,
    {
        proof {
            use_type_invariant(&*self);
        }
        let w = match target {
            None => return Vec::new(),
            Some(w) => w,
        };
        if w == Widget::ProgressBar {
            return Vec::new();
        }
        if self.gesture.is_one() {
            match judge_click(elapsed) {
                ClickVerdict::TooSoon => Vec::new(),
                ClickVerdict::Expired => {
                    self.gesture = ClickGesture::new();
                    Vec::new()
                },
                ClickVerdict::Double => {
                    let cmds = self.double_click(w, current);
                    self.gesture = ClickGesture::new();
                    cmds
                },
            }
        } else {
            let mut armed = ClickGesture::new();
            armed.timing();
            self.gesture = armed;
            Vec::new()
        }
    }

    /// Answers a report of the window, with the pipeline in `current`. The
    /// time since the first click of a pending gesture is read from the
    /// clock where the answer depends on it; the answer is `ui_step`'s for
    /// the time that was read, and for any time where it does not depend
    /// on it.
    pub fn on_ui(&mut self, ev: UiEvent, current: PipelineState) -> (r: Reaction)
        requires
            ui_defined(old(self)@, ev),
        ensures
            final(self)@.loop_nums == old(self)@.loop_nums,
            exists|e: u128|
                (final(self)@, r.commands@, r.stop) == #[trigger] ui_step(
                    old(self)@,
                    ev,
                    current,
                    e,
                ),
            !reads_clock(old(self)@, ev) ==> forall|e: u128|
                (final(self)@, r.commands@, r.stop) == #[trigger] ui_step(
                    old(self)@,
                    ev,
                    current,
                    e,
                ),
            !(ev matches UiEvent::Click(Some(w)) && w != Widget::ProgressBar) ==> *final(self)
                == *old(self),
            (old(self)@.gesture == ClickTy::One && final(self)@.gesture == ClickTy::One)
                ==> *final(self) == *old(self),
    {
        match ev {
            UiEvent::Click(target) => {
                let mut elapsed: u128 = 0;
                if let Some(w) = target {
                    if w != Widget::ProgressBar && self.gesture.is_one() {
                        let d = self.gesture.dur();
                        elapsed = duration_as_nanos(&d);
                    }
                }
                let ghost before = self@;
                let commands = self.on_click(target, current, elapsed);
                assert((self@, commands@, false) == ui_step(before, ev, current, elapsed));
                Reaction { commands, stop: false }
            },
            UiEvent::Back => {
                let r = Reaction { commands: vec![Command::RequestExit], stop: true };
                assert((self@, r.commands@, r.stop) == ui_step(self@, ev, current, 0));
                r
            },
            UiEvent::Start => {
                let r = Reaction {
                    commands: vec![Command::InterceptVolume, Command::InterceptBack],
                    stop: false,
                };
                assert((self@, r.commands@, r.stop) == ui_step(self@, ev, current, 0));
                r
            },
            UiEvent::Other => {
                let r = Reaction { commands: Vec::new(), stop: false };
                assert((self@, r.commands@, r.stop) == ui_step(self@, ev, current, 0));
                r
            },
        }
    }
}

} // verus!
