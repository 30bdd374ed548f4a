//! The notification window's behaviour: which animation state it is in, what a new
//! notification or a frame of the clock does to it, and what it asks of the screen.

use vstd::prelude::*;
use vstd::string::StringExecFns;
use crate::config::{fallback_state, Config, State, StateView};
use crate::dbus::Notification;
use crate::text::str_eq;

verus! {

/// How far the current animation has come.
#[derive(PartialEq, Eq, Structural, Clone, Copy, Debug)]
pub enum Progress {
    /// `elapsed_ms` of `duration_ms` have passed; always `elapsed_ms < duration_ms`.
    Running { elapsed_ms: u64, duration_ms: u64 },
    /// The animation has reached its target.
    Done,
}

/// One frame of the animation from the `start` look to the `target` look.
#[derive(Debug, Clone, PartialEq, Eq)]
pub struct Frame {
    pub start: State,
    pub target: State,
    pub progress: Progress,
}

/// What the window asks of the screen, in order.
#[derive(Debug, Clone, PartialEq, Eq)]
pub enum UiAction {
    /// Show this text as the summary line.
    SetSummary(String),
    /// Show this text as the body.
    SetBody(String),
    /// Give the container the "expanded" style, or take it away.
    SetExpanded(bool),
    /// Show or hide the text box.
    SetTextBoxVisible(bool),
    /// Show or hide the window.
    SetWindowVisible(bool),
    /// Raise the window.
    PresentWindow,
    /// Draw a frame of the animation.
    ApplyFrame(Frame),
}

/// An action, with its strings taken as characters.
pub enum ActionView {
    SetSummary(Seq<char>),
    SetBody(Seq<char>),
    SetExpanded(bool),
    SetTextBoxVisible(bool),
    SetWindowVisible(bool),
    PresentWindow,
    ApplyFrame(StateView, StateView, Progress),
}

impl View for UiAction {
    type V = ActionView;

    open spec fn view(&self) -> ActionView {
        match self {
            UiAction::SetSummary(s) => ActionView::SetSummary(s@),
            UiAction::SetBody(s) => ActionView::SetBody(s@),
            UiAction::SetExpanded(b) => ActionView::SetExpanded(*b),
            UiAction::SetTextBoxVisible(b) => ActionView::SetTextBoxVisible(*b),
            UiAction::SetWindowVisible(b) => ActionView::SetWindowVisible(*b),
            UiAction::PresentWindow => ActionView::PresentWindow,
            UiAction::ApplyFrame(f) => ActionView::ApplyFrame(f.start@, f.target@, f.progress),
        }
    }
}

/// The characters of each action.
pub open spec fn action_views(v: Seq<UiAction>) -> Seq<ActionView> {
    v.map_values(|a: UiAction| a@)
}

/// The window's state: the configured animation states, the one it is in, when its
/// animation began, the looks it animates from and to, and the text of the latest
/// notification.
pub struct WindowView {
    pub states: Map<Seq<char>, StateView>,
    pub current: Seq<char>,
    pub started_at: Option<u64>,
    pub start: StateView,
    pub target: StateView,
    pub pending_summary: Seq<char>,
    pub pending_body: Seq<char>,
}

/// The look the window animates to is the configured look of the state it is in; only
/// in the "idle" state it starts in may that state be missing from the configuration,
/// and then it animates to the fallback look.
pub open spec fn consistent(w: WindowView) -> bool {
    if w.states.contains_key(w.current) {
        w.target == w.states[w.current]
    } else {
        w.current == "idle"@ && w.target == fallback_state()
    }
}

/// A new window: in the "idle" state, resting at the "idle" look (the fallback look
/// when there is none), with no text.
pub open spec fn initial_window(states: Map<Seq<char>, StateView>) -> WindowView {
    let look = if states.contains_key("idle"@) {
        states["idle"@]
    } else {
        fallback_state()
    };
    WindowView {
        states,
        current: "idle"@,
        started_at: None,
        start: look,
        target: look,
        pending_summary: Seq::empty(),
        pending_body: Seq::empty(),
    }
}

/// What entering the state `name` asks of the screen.
pub open spec fn entry_actions(name: Seq<char>, summary: Seq<char>, body: Seq<char>) -> Seq<ActionView> {
    if name == "expand"@ {
        seq![
            ActionView::SetExpanded(true),
            ActionView::SetTextBoxVisible(true),
            ActionView::SetSummary(summary),
            ActionView::SetBody(body),
        ]
    } else if name == "collapse_to_circle"@ {
        seq![ActionView::SetExpanded(false), ActionView::SetTextBoxVisible(false)]
    } else if name == "idle"@ {
        seq![
            ActionView::SetExpanded(false),
            ActionView::SetTextBoxVisible(false),
            ActionView::SetWindowVisible(false),
        ]
    } else if name == "pop_in"@ {
        seq![
            ActionView::SetTextBoxVisible(true),
            ActionView::SetWindowVisible(true),
            ActionView::PresentWindow,
        ]
    } else {
        Seq::empty()
    }
}

/// Moving to the state `name`: when it is configured, the window animates from the look
/// it was animating to towards the look of `name`, restarting the clock; otherwise
/// nothing happens.
pub open spec fn transition(w: WindowView, name: Seq<char>) -> (WindowView, Seq<ActionView>) {
    if w.states.contains_key(name) {
        (
            WindowView {
                start: w.target,
                target: w.states[name],
                current: name,
                started_at: None,
                ..w
            },
            entry_actions(name, w.pending_summary, w.pending_body),
        )
    } else {
        (w, Seq::empty())
    }
}

/// What a notification does. Its text is kept. An idle window shows the application's
/// name and pops in; an expanded one shows the text; one collapsing or popping out
/// expands again; in any other state nothing else happens.
pub open spec fn after_notification(
    w: WindowView,
    app_name: Seq<char>,
    summary: Seq<char>,
    body: Seq<char>,
) -> (WindowView, Seq<ActionView>) {
    let w1 = WindowView { pending_summary: summary, pending_body: body, ..w };
    if w.current == "idle"@ {
        let t = transition(w1, "pop_in"@);
        (t.0, seq![ActionView::SetSummary(app_name), ActionView::SetBody(Seq::empty())] + t.1)
    } else if w.current == "expand"@ {
        (w1, seq![ActionView::SetSummary(summary), ActionView::SetBody(body)])
    } else if w.current == "collapse_to_circle"@ || w.current == "pop_out"@ {
        transition(w1, "expand"@)
    } else {
        (w1, Seq::empty())
    }
}

/// When the animation began, as seen at time `now`: the first frame starts it.
pub open spec fn start_time(w: WindowView, now: u64) -> u64 {
    match w.started_at {
        Some(t) => t,
        None => now,
    }
}

/// What a frame of the clock at `now` milliseconds does. Within the animation's duration
/// it draws the frame reached; after it, the target look; and once the state has also
/// rested its waiting time, the window moves on to the next state, if there is one.
pub open spec fn after_tick(w: WindowView, now: u64) -> (WindowView, Seq<ActionView>) {
    let started = start_time(w, now);
    let w1 = WindowView { started_at: Some(started), ..w };
    let elapsed = (now - started) as u64;
    let duration = w.target.duration_ms;
    if elapsed < duration {
        (
            w1,
            seq![
                ActionView::ApplyFrame(
                    w.start,
                    w.target,
                    Progress::Running { elapsed_ms: elapsed, duration_ms: duration },
                ),
            ],
        )
    } else {
        let frame = ActionView::ApplyFrame(w.start, w.target, Progress::Done);
        if elapsed - duration >= w.target.wait_ms && w.target.next_state is Some {
            let t = transition(w1, w.target.next_state.unwrap());
            (t.0, seq![frame] + t.1)
        } else {
            (w1, seq![frame])
        }
    }
}

/// Every operation keeps the window consistent: it always animates towards the
/// configured look of the state it is in.
pub proof fn law_consistency_kept(w: WindowView, name: Seq<char>, app_name: Seq<char>, summary: Seq<char>, body: Seq<char>, now: u64)
    requires
        consistent(w),
    ensures
        consistent(transition(w, name).0),
        consistent(after_notification(w, app_name, summary, body).0),
        consistent(after_tick(w, now).0),
{
}

/// A new window is consistent.
pub proof fn law_initial_consistent(states: Map<Seq<char>, StateView>)
    ensures
        consistent(initial_window(states)),
{
}

/// The configured states never change.
pub proof fn law_states_unchanged(w: WindowView, name: Seq<char>, app_name: Seq<char>, summary: Seq<char>, body: Seq<char>, now: u64)
    ensures
        transition(w, name).0.states == w.states,
        after_notification(w, app_name, summary, body).0.states == w.states,
        after_tick(w, now).0.states == w.states,
{
}

/// Asking for a state that is not configured changes nothing and asks nothing of the
/// screen.
pub proof fn law_unconfigured_state_ignored(w: WindowView, name: Seq<char>)
    requires
        !w.states.contains_key(name),
    ensures
        transition(w, name) == (w, Seq::<ActionView>::empty()),
{
}

/// Entering a configured state animates from the previous target look to the new
/// state's look, from a fresh clock, and keeps the notification's text.
pub proof fn law_transition_restarts_animation(w: WindowView, name: Seq<char>)
    requires
        w.states.contains_key(name),
    ensures
        transition(w, name).0.current == name,
        transition(w, name).0.start == w.target,
        transition(w, name).0.target == w.states[name],
        transition(w, name).0.started_at is None,
        transition(w, name).0.pending_summary == w.pending_summary,
        transition(w, name).0.pending_body == w.pending_body,
{
}

/// The window only ever moves on by itself along the configured chain of states: when a
/// frame changes the state, the new state is the one the old state names as next, and
/// the old state's animation and waiting time have both passed.
pub proof fn law_tick_follows_chain(w: WindowView, now: u64)
    requires
        w.started_at matches Some(t) ==> t <= now,
        after_tick(w, now).0.current != w.current,
    ensures
        w.target.next_state == Some(after_tick(w, now).0.current),
        now - start_time(w, now) >= w.target.duration_ms + w.target.wait_ms,
{
}

/// Every frame drawn animates from the window's start look to its target look; a
/// running frame lies strictly within the animation's duration.
pub proof fn law_frame_within_duration(w: WindowView, now: u64)
    requires
        w.started_at matches Some(t) ==> t <= now,
    ensures
        after_tick(w, now).1.len() >= 1,
        after_tick(w, now).1[0] matches ActionView::ApplyFrame(s, t, p) && s == w.start && t == w.target
            && (p matches Progress::Running { elapsed_ms, duration_ms } ==> elapsed_ms < duration_ms
            && duration_ms == w.target.duration_ms && elapsed_ms == now - start_time(w, now)),
{
}

/// A frame repeated at the same time, when the first did not change the state, changes
/// nothing more and draws the same frame again.
pub proof fn law_repeated_tick_stable(w: WindowView, now: u64)
    requires
        w.started_at matches Some(t) ==> t <= now,
        after_tick(w, now).0.current == w.current,
        after_tick(w, now).0.started_at is Some,
    ensures
        after_tick(after_tick(w, now).0, now) == after_tick(w, now),
{
}

/// A notification's text is always kept for when the window expands.
pub proof fn law_notification_text_kept(w: WindowView, app_name: Seq<char>, summary: Seq<char>, body: Seq<char>)
    ensures
        after_notification(w, app_name, summary, body).0.pending_summary == summary,
        after_notification(w, app_name, summary, body).0.pending_body == body,
{
}

/// An idle window that has a "pop_in" state pops in on a notification, first showing the
/// application's name and no body.
pub proof fn law_idle_window_pops_in(w: WindowView, app_name: Seq<char>, summary: Seq<char>, body: Seq<char>)
    requires
        w.current == "idle"@,
        w.states.contains_key("pop_in"@),
    ensures
        after_notification(w, app_name, summary, body).0.current == "pop_in"@,
        after_notification(w, app_name, summary, body).1.len() >= 2,
        after_notification(w, app_name, summary, body).1[0] == ActionView::SetSummary(app_name),
        after_notification(w, app_name, summary, body).1[1] == ActionView::SetBody(Seq::empty()),
        after_notification(w, app_name, summary, body).0.started_at is None,
        after_notification(w, app_name, summary, body).0.start == w.target,
        after_notification(w, app_name, summary, body).0.target == w.states["pop_in"@],
        after_notification(w, app_name, summary, body).0.pending_summary == summary,
        after_notification(w, app_name, summary, body).0.pending_body == body,
        after_notification(w, app_name, summary, body).1 == seq![
            ActionView::SetSummary(app_name),
            ActionView::SetBody(Seq::empty()),
            ActionView::SetTextBoxVisible(true),
            ActionView::SetWindowVisible(true),
            ActionView::PresentWindow,
        ],
{
    reveal_strlit("expand");
    reveal_strlit("idle");
    reveal_strlit("collapse_to_circle");
    reveal_strlit("pop_in");
    assert("expand"@.len() == 6);
    assert("collapse_to_circle"@.len() == 18);
    assert("idle"@.len() == 4);
    assert("pop_in"@.len() == 6);
    assert("expand"@[0] != "pop_in"@[0]);
}

/// An idle window without a "pop_in" state only shows the application's name and no
/// body, and stays idle with its animation untouched.
pub proof fn law_idle_window_without_pop_in(w: WindowView, app_name: Seq<char>, summary: Seq<char>, body: Seq<char>)
    requires
        w.current == "idle"@,
        !w.states.contains_key("pop_in"@),
    ensures
        after_notification(w, app_name, summary, body).0 == (WindowView {
            pending_summary: summary,
            pending_body: body,
            ..w
        }),
        after_notification(w, app_name, summary, body).1 == seq![
            ActionView::SetSummary(app_name),
            ActionView::SetBody(Seq::empty()),
        ],
{
}

/// A notification reaching an expanded window shows its text there and changes neither
/// the state nor its animation.
pub proof fn law_expanded_window_shows_text(w: WindowView, app_name: Seq<char>, summary: Seq<char>, body: Seq<char>)
    requires
        w.current == "expand"@,
    ensures
        after_notification(w, app_name, summary, body).0 == (WindowView {
            pending_summary: summary,
            pending_body: body,
            ..w
        }),
        after_notification(w, app_name, summary, body).1 == seq![ActionView::SetSummary(summary), ActionView::SetBody(body)],
{
    reveal_strlit("expand");
    reveal_strlit("idle");
    assert("expand"@.len() == 6);
    assert("idle"@.len() == 4);
}

/// A notification reaching a window that is collapsing or popping out expands it again,
/// showing the new text, when an "expand" state is configured.
pub proof fn law_collapsing_window_expands(w: WindowView, app_name: Seq<char>, summary: Seq<char>, body: Seq<char>)
    requires
        w.current == "collapse_to_circle"@ || w.current == "pop_out"@,
        w.states.contains_key("expand"@),
    ensures
        after_notification(w, app_name, summary, body).0.current == "expand"@,
        after_notification(w, app_name, summary, body).1 == seq![
            ActionView::SetExpanded(true),
            ActionView::SetTextBoxVisible(true),
            ActionView::SetSummary(summary),
            ActionView::SetBody(body),
        ],
        after_notification(w, app_name, summary, body).0.started_at is None,
        after_notification(w, app_name, summary, body).0.start == w.target,
        after_notification(w, app_name, summary, body).0.target == w.states["expand"@],
        after_notification(w, app_name, summary, body).0.states == w.states,
        after_notification(w, app_name, summary, body).0.pending_summary == summary,
        after_notification(w, app_name, summary, body).0.pending_body == body,
{
    reveal_strlit("expand");
    reveal_strlit("idle");
    reveal_strlit("collapse_to_circle");
    reveal_strlit("pop_out");
    assert("expand"@.len() == 6);
    assert("idle"@.len() == 4);
    assert("collapse_to_circle"@.len() == 18);
    assert("pop_out"@.len() == 7);
}

/// A notification reaching a window in any other state than "idle", "expand",
/// "collapse_to_circle" or "pop_out" only keeps its text.
pub proof fn law_other_states_only_keep_text(w: WindowView, app_name: Seq<char>, summary: Seq<char>, body: Seq<char>)
    requires
        w.current != "idle"@,
        w.current != "expand"@,
        w.current != "collapse_to_circle"@,
        w.current != "pop_out"@,
    ensures
        after_notification(w, app_name, summary, body).0 == (WindowView {
            pending_summary: summary,
            pending_body: body,
            ..w
        }),
        after_notification(w, app_name, summary, body).1 == Seq::<ActionView>::empty(),
{
}

/// The four named states ask this of the screen when entered: "expand" shows the text
/// box with the kept text, "collapse_to_circle" and "idle" hide it ("idle" also hides the
/// window), "pop_in" shows the text box and the window; any other state asks nothing.
/// The text box is made visible exactly on entering "pop_in" or "expand", and hidden
/// exactly on entering "collapse_to_circle" or "idle".
pub proof fn law_state_entry_actions(w: WindowView, name: Seq<char>)
    requires
        w.states.contains_key(name),
    ensures
        name == "expand"@ ==> transition(w, name).1 == seq![
            ActionView::SetExpanded(true),
            ActionView::SetTextBoxVisible(true),
            ActionView::SetSummary(w.pending_summary),
            ActionView::SetBody(w.pending_body),
        ],
        name == "collapse_to_circle"@ ==> transition(w, name).1 == seq![
            ActionView::SetExpanded(false),
            ActionView::SetTextBoxVisible(false),
        ],
        name == "idle"@ ==> transition(w, name).1 == seq![
            ActionView::SetExpanded(false),
            ActionView::SetTextBoxVisible(false),
            ActionView::SetWindowVisible(false),
        ],
        name == "pop_in"@ ==> transition(w, name).1 == seq![
            ActionView::SetTextBoxVisible(true),
            ActionView::SetWindowVisible(true),
            ActionView::PresentWindow,
        ],
        name != "expand"@ && name != "collapse_to_circle"@ && name != "idle"@ && name != "pop_in"@
            ==> transition(w, name).1 == Seq::<ActionView>::empty(),
        transition(w, name).1.contains(ActionView::SetTextBoxVisible(true)) <==> (name == "pop_in"@
            || name == "expand"@),
        transition(w, name).1.contains(ActionView::SetTextBoxVisible(false)) <==> (name
            == "collapse_to_circle"@ || name == "idle"@),
{
    reveal_strlit("expand");
    reveal_strlit("idle");
    reveal_strlit("collapse_to_circle");
    reveal_strlit("pop_in");
    assert("expand"@.len() == 6);
    assert("idle"@.len() == 4);
    assert("collapse_to_circle"@.len() == 18);
    assert("pop_in"@.len() == 6);
    assert("expand"@[0] != "pop_in"@[0]);
    let a = transition(w, name).1;
    if name == "expand"@ {
        assert(a[1] == ActionView::SetTextBoxVisible(true));
        assert(!a.contains(ActionView::SetTextBoxVisible(false))) by {
            assert forall|i: int| 0 <= i < a.len() implies a[i] != ActionView::SetTextBoxVisible(false) by {}
        }
    } else if name == "collapse_to_circle"@ {
        assert(a[1] == ActionView::SetTextBoxVisible(false));
        assert(!a.contains(ActionView::SetTextBoxVisible(true))) by {
            assert forall|i: int| 0 <= i < a.len() implies a[i] != ActionView::SetTextBoxVisible(true) by {}
        }
    } else if name == "idle"@ {
        assert(a[1] == ActionView::SetTextBoxVisible(false));
        assert(!a.contains(ActionView::SetTextBoxVisible(true))) by {
            assert forall|i: int| 0 <= i < a.len() implies a[i] != ActionView::SetTextBoxVisible(true) by {}
        }
    } else if name == "pop_in"@ {
        assert(a[0] == ActionView::SetTextBoxVisible(true));
        assert(!a.contains(ActionView::SetTextBoxVisible(false))) by {
            assert forall|i: int| 0 <= i < a.len() implies a[i] != ActionView::SetTextBoxVisible(false) by {}
        }
    }
}

/// A frame that moves the window into "collapse_to_circle" draws the finished frame of
/// the state it leaves, then takes away the expanded style and hides the text box.
pub proof fn law_tick_into_collapse(w: WindowView, now: u64)
    requires
        w.started_at matches Some(t) ==> t <= now,
        w.current != "collapse_to_circle"@,
        after_tick(w, now).0.current == "collapse_to_circle"@,
    ensures
        after_tick(w, now).1 == seq![
            ActionView::ApplyFrame(w.start, w.target, Progress::Done),
            ActionView::SetExpanded(false),
            ActionView::SetTextBoxVisible(false),
        ],
        after_tick(w, now).0.started_at is None,
        after_tick(w, now).0.start == w.target,
        after_tick(w, now).0.target == w.states["collapse_to_circle"@],
{
    reveal_strlit("expand");
    reveal_strlit("idle");
    reveal_strlit("collapse_to_circle");
    assert("expand"@.len() == 6);
    assert("idle"@.len() == 4);
    assert("collapse_to_circle"@.len() == 18);
}

/// A frame that changes the state draws the finished frame and then asks exactly what
/// entering the new state asks; the text box ends up visible exactly when the new state
/// is "pop_in" or "expand".
pub proof fn law_tick_state_change_actions(w: WindowView, now: u64)
    requires
        w.started_at matches Some(t) ==> t <= now,
        after_tick(w, now).0.current != w.current,
    ensures
        after_tick(w, now).1 == seq![ActionView::ApplyFrame(w.start, w.target, Progress::Done)]
            + transition(w, after_tick(w, now).0.current).1,
        after_tick(w, now).1.contains(ActionView::SetTextBoxVisible(true)) <==> (after_tick(w, now).0.current
            == "pop_in"@ || after_tick(w, now).0.current == "expand"@),
{
    let n = after_tick(w, now).0.current;
    let w1 = WindowView { started_at: Some(start_time(w, now)), ..w };
    assert(transition(w1, n).1 == transition(w, n).1);
    law_state_entry_actions(w, n);
    let a = after_tick(w, now).1;
    let b = transition(w, n).1;
    assert(a == seq![ActionView::ApplyFrame(w.start, w.target, Progress::Done)] + b);
    if b.contains(ActionView::SetTextBoxVisible(true)) {
        let i = choose|i: int| 0 <= i < b.len() && b[i] == ActionView::SetTextBoxVisible(true);
        assert(a[i + 1] == ActionView::SetTextBoxVisible(true));
    }
    if a.contains(ActionView::SetTextBoxVisible(true)) {
        let i = choose|i: int| 0 <= i < a.len() && a[i] == ActionView::SetTextBoxVisible(true);
        assert(i > 0);
        assert(b[i - 1] == ActionView::SetTextBoxVisible(true));
    }
}

/// Once the animation and the waiting time of the current state have both passed, a
/// frame moves the window to the next state, when that state is configured.
pub proof fn law_tick_moves_on_when_due(w: WindowView, now: u64)
    requires
        w.started_at matches Some(t) ==> t <= now,
        now - start_time(w, now) >= w.target.duration_ms + w.target.wait_ms,
        w.target.next_state matches Some(n) && w.states.contains_key(n),
    ensures
        after_tick(w, now).0.current == w.target.next_state.unwrap(),
        after_tick(w, now).0.started_at is None,
        after_tick(w, now).0.start == w.target,
        after_tick(w, now).0.target == w.states[w.target.next_state.unwrap()],
        after_tick(w, now).1[0] == ActionView::ApplyFrame(w.start, w.target, Progress::Done),
{
}

/// Before the animation and the waiting time have both passed, a frame only starts the
/// clock (on the first frame) and draws one frame; the state stays as it is.
pub proof fn law_tick_waits_until_due(w: WindowView, now: u64)
    requires
        w.started_at matches Some(t) ==> t <= now,
        now - start_time(w, now) < w.target.duration_ms + w.target.wait_ms,
    ensures
        after_tick(w, now).0 == (WindowView { started_at: Some(start_time(w, now)), ..w }),
        after_tick(w, now).1.len() == 1,
        now - start_time(w, now) >= w.target.duration_ms ==> after_tick(w, now).1[0]
            == ActionView::ApplyFrame(w.start, w.target, Progress::Done),
        w.started_at is None ==> after_tick(w, now).0.started_at == Some(now),
{
}

/// A new window is idle, with no clock running and no text, resting at the "idle" look;
/// without an "idle" state that look is all zero (opacity 0.0), linear, with no next state.
pub proof fn law_initial_window(states: Map<Seq<char>, StateView>)
    ensures
        initial_window(states).current == "idle"@,
        initial_window(states).started_at is None,
        initial_window(states).states == states,
        initial_window(states).start == initial_window(states).target,
        initial_window(states).pending_summary.len() == 0,
        initial_window(states).pending_body.len() == 0,
        states.contains_key("idle"@) ==> initial_window(states).target == states["idle"@],
        !states.contains_key("idle"@) ==> ({
            let t = initial_window(states).target;
            &&& t.width == 0 && t.height == 0 && t.opacity_bits == 0 && t.margin_top == 0
            &&& t.border_radius == 0 && t.duration_ms == 0 && t.wait_ms == 0
            &&& t.easing == "linear"@ && t.next_state is None
        }),
{
}

/// The window's behaviour, apart from its widgets.
pub struct NotificationWindow {
    config: Config,
    current_state_name: String,
    animation_start_time: Option<u64>,
    start_props: State,
    target_props: State,
    pending_summary: String,
    pending_body: String,
}

impl View for NotificationWindow {
    type V = WindowView;

    closed spec fn view(&self) -> WindowView {
        WindowView {
            states: self.config.states@,
            current: self.current_state_name@,
            started_at: self.animation_start_time,
            start: self.start_props@,
            target: self.target_props@,
            pending_summary: self.pending_summary@,
            pending_body: self.pending_body@,
        }
    }
}

impl NotificationWindow {
    /// The configuration the window was made with.
    pub closed spec fn configuration(&self) -> Config {
        self.config
    }

    /// A window for `config`, idle.
    pub fn new(config: Config) -> (w: Self)
        ensures
            w@ == initial_window(config.states@),
            w.configuration() == config,
            consistent(w@),
    {
        let look = match config.states.get("idle") {
            Some(s) => s.duplicate(),
            None => State::fallback(),
        };
        let start = look.duplicate();
        NotificationWindow {
            config,
            current_state_name: String::from_str("idle"),
            animation_start_time: None,
            start_props: start,
            target_props: look,
            pending_summary: String::new(),
            pending_body: String::new(),
        }
    }

    /// The configuration the window was made with.
    pub fn config(&self) -> (r: &Config)
        ensures
            *r == self.configuration(),
            r.states@ == self@.states,
    {
        &self.config
    }

    /// The name of the state the window is in.
    pub fn current_state_name(&self) -> (r: &str)
        ensures
            r@ == self@.current,
    {
        self.current_state_name.as_str()
    }

    /// When the current animation began, once a frame has started it.
    pub fn animation_start_time(&self) -> (r: Option<u64>)
        ensures
            r == self@.started_at,
    {
        self.animation_start_time
    }

    /// The look the window animates from.
    pub fn start_props(&self) -> (r: &State)
        ensures
            r@ == self@.start,
    {
        &self.start_props
    }

    /// The look the window animates to.
    pub fn target_props(&self) -> (r: &State)
        ensures
            r@ == self@.target,
    {
        &self.target_props
    }

    fn entry_actions(&self, name: &str) -> (r: Vec<UiAction>)
        ensures
            action_views(r@) == entry_actions(name@, self@.pending_summary, self@.pending_body),
    {
        let mut r: Vec<UiAction> = Vec::new();
        if str_eq(name, "expand") {
            r.push(UiAction::SetExpanded(true));
            r.push(UiAction::SetTextBoxVisible(true));
            r.push(UiAction::SetSummary(self.pending_summary.clone()));
            r.push(UiAction::SetBody(self.pending_body.clone()));
        } else if str_eq(name, "collapse_to_circle") {
            r.push(UiAction::SetExpanded(false));
            r.push(UiAction::SetTextBoxVisible(false));
        } else if str_eq(name, "idle") {
            r.push(UiAction::SetExpanded(false));
            r.push(UiAction::SetTextBoxVisible(false));
            r.push(UiAction::SetWindowVisible(false));
        } else if str_eq(name, "pop_in") {
            r.push(UiAction::SetTextBoxVisible(true));
            r.push(UiAction::SetWindowVisible(true));
            r.push(UiAction::PresentWindow);
        }
        assert(action_views(r@) =~= entry_actions(name@, self@.pending_summary, self@.pending_body));
        r
    }

    /// Moves to the state `name`, if it is configured.
    fn transition_to(&mut self, name: &str) -> (r: Vec<UiAction>)
        ensures
            final(self)@ == transition(old(self)@, name@).0,
            action_views(r@) == transition(old(self)@, name@).1,
            final(self).configuration() == old(self).configuration(),
    {
        match self.config.states.get(name) {
            Some(target) => {
                let t = target.duplicate();
                let previous = self.target_props.duplicate();
                self.start_props = previous;
                self.target_props = t;
                self.current_state_name = String::from_str(name);
                self.animation_start_time = None;
                self.entry_actions(name)
            },
            None => {
                let r: Vec<UiAction> = Vec::new();
                assert(action_views(r@) =~= Seq::<ActionView>::empty());
                r
            },
        }
    }

    /// Takes in a notification: keeps its text and reacts as the state the window is
    /// in calls for. The icon is looked up separately (see `icon::icon_plan`).
    pub fn show_notification(&mut self, notif: Notification) -> (r: Vec<UiAction>)
        ensures
            final(self)@ == after_notification(old(self)@, notif.app_name@, notif.summary@, notif.body@).0,
            action_views(r@) == after_notification(old(self)@, notif.app_name@, notif.summary@, notif.body@).1,
            final(self).configuration() == old(self).configuration(),
    {
        let Notification { app_name, summary, body, .. } = notif;
        self.pending_summary = summary;
        self.pending_body = body;
        let ghost w1 = self@;
        if str_eq(self.current_state_name.as_str(), "idle") {
            let mut r: Vec<UiAction> = Vec::new();
            r.push(UiAction::SetSummary(app_name));
            r.push(UiAction::SetBody(String::new()));
            let ghost first = action_views(r@);
            let mut more = self.transition_to("pop_in");
            let ghost rest = action_views(more@);
            r.append(&mut more);
            assert(action_views(r@) =~= first + rest);
            r
        } else if str_eq(self.current_state_name.as_str(), "expand") {
            let mut r: Vec<UiAction> = Vec::new();
            r.push(UiAction::SetSummary(self.pending_summary.clone()));
            r.push(UiAction::SetBody(self.pending_body.clone()));
            assert(action_views(r@) =~= seq![ActionView::SetSummary(w1.pending_summary), ActionView::SetBody(w1.pending_body)]);
            r
        } else if str_eq(self.current_state_name.as_str(), "collapse_to_circle") || str_eq(
            self.current_state_name.as_str(),
            "pop_out",
        ) {
            self.transition_to("expand")
        } else {
            let r: Vec<UiAction> = Vec::new();
            assert(action_views(r@) =~= Seq::<ActionView>::empty());
            r
        }
    }

    /// A frame of the clock at `now_ms` milliseconds: draws the animation and moves on
    /// to the next state when the current one has run its course.
    pub fn tick(&mut self, now_ms: u64) -> (r: Vec<UiAction>)
        requires
            old(self)@.started_at matches Some(t) ==> t <= now_ms,
        ensures
            final(self)@ == after_tick(old(self)@, now_ms).0,
            action_views(r@) == after_tick(old(self)@, now_ms).1,
            final(self).configuration() == old(self).configuration(),
    {
        let started = match self.animation_start_time {
            Some(t) => t,
            None => now_ms,
        };
        self.animation_start_time = Some(started);
        let elapsed = now_ms - started;
        let duration = self.target_props.duration_ms;
        let start = self.start_props.duplicate();
        let target = self.target_props.duplicate();
        let mut r: Vec<UiAction> = Vec::new();
        if elapsed < duration {
            r.push(UiAction::ApplyFrame(Frame {
                start,
                target,
                progress: Progress::Running { elapsed_ms: elapsed, duration_ms: duration },
            }));
            assert(action_views(r@) =~= after_tick(old(self)@, now_ms).1);
            r
        } else {
            r.push(UiAction::ApplyFrame(Frame { start, target, progress: Progress::Done }));
            let ghost first = action_views(r@);
            let wait_elapsed = elapsed - duration;
            if wait_elapsed >= self.target_props.wait_ms {
                match &self.target_props.next_state {
                    Some(next) => {
                        let next = next.clone();
                        let mut more = self.transition_to(next.as_str());
                        let ghost rest = action_views(more@);
                        r.append(&mut more);
                        assert(action_views(r@) =~= first + rest);
                    },
                    None => {},
                }
            }
            r
        }
    }
}

} // verus!
