use notify::config::{Config, GlobalConfig, State};
use notify::dbus::{accept_notification, Notification};
use notify::table::Table;
use notify::window::{Frame, NotificationWindow, Progress, UiAction};

fn state(width: i32, duration_ms: u64, wait_ms: u64, next: Option<&str>) -> State {
    State {
        width,
        height: width / 2,
        opacity_bits: 1.0f64.to_bits(),
        margin_top: 10,
        border_radius: 24,
        duration_ms,
        wait_ms,
        easing: "ease-out".to_string(),
        next_state: next.map(|s| s.to_string()),
    }
}

fn global() -> GlobalConfig {
    GlobalConfig {
        anchor: vec!["top".to_string()],
        margin_top: 8,
        margin_bottom: 0,
        margin_left: 0,
        margin_right: 0,
        monitor: None,
        icon_path: None,
    }
}

fn chain_config() -> Config {
    let mut states = Table::new();
    states.insert("idle".to_string(), state(0, 0, 0, None));
    states.insert("pop_in".to_string(), state(48, 200, 1000, Some("expand")));
    states.insert("expand".to_string(), state(400, 300, 5000, Some("collapse_to_circle")));
    states.insert("collapse_to_circle".to_string(), state(48, 300, 500, Some("pop_out")));
    states.insert("pop_out".to_string(), state(0, 200, 0, Some("idle")));
    Config { global: global(), states }
}

fn notification(app: &str, summary: &str, body: &str) -> Notification {
    accept_notification(
        app.to_string(),
        0,
        String::new(),
        summary.to_string(),
        body.to_string(),
        Table::new(),
        -1,
    )
    .0
}

fn texts(actions: &[UiAction]) -> Vec<String> {
    actions
        .iter()
        .map(|a| match a {
            UiAction::SetSummary(s) => format!("summary:{}", s),
            UiAction::SetBody(s) => format!("body:{}", s),
            UiAction::SetExpanded(b) => format!("expanded:{}", b),
            UiAction::SetTextBoxVisible(b) => format!("textbox:{}", b),
            UiAction::SetWindowVisible(b) => format!("window:{}", b),
            UiAction::PresentWindow => "present".to_string(),
            UiAction::ApplyFrame(Frame { progress: Progress::Running { elapsed_ms, duration_ms }, .. }) => {
                format!("frame:{}/{}", elapsed_ms, duration_ms)
            }
            UiAction::ApplyFrame(Frame { progress: Progress::Done, .. }) => "frame:done".to_string(),
        })
        .collect()
}

#[test]
fn new_window_is_idle() {
    let w = NotificationWindow::new(chain_config());
    assert_eq!(w.current_state_name(), "idle");
    assert_eq!(w.animation_start_time(), None);
    assert_eq!(w.target_props().width, 0);
    assert_eq!(w.start_props(), w.target_props());
}

#[test]
fn new_window_without_idle_uses_fallback() {
    let mut states = Table::new();
    states.insert("pop_in".to_string(), state(48, 200, 0, None));
    let w = NotificationWindow::new(Config { global: global(), states });
    assert_eq!(w.current_state_name(), "idle");
    assert_eq!(w.target_props(), &State::fallback());
    assert_eq!(w.target_props().easing, "linear");
    assert_eq!(f64::from_bits(w.target_props().opacity_bits), 0.0);
}

#[test]
fn idle_window_pops_in_on_notification() {
    let mut w = NotificationWindow::new(chain_config());
    let actions = w.show_notification(notification("Firefox", "Download done", "a.zip"));
    assert_eq!(
        texts(&actions),
        vec!["summary:Firefox", "body:", "textbox:true", "window:true", "present"]
    );
    assert_eq!(w.current_state_name(), "pop_in");
    assert_eq!(w.start_props().width, 0);
    assert_eq!(w.target_props().width, 48);
    assert_eq!(w.animation_start_time(), None);
}

#[test]
fn idle_window_without_pop_in_only_shows_name() {
    let mut states = Table::new();
    states.insert("idle".to_string(), state(0, 0, 0, None));
    let mut w = NotificationWindow::new(Config { global: global(), states });
    let actions = w.show_notification(notification("mail", "hi", "there"));
    assert_eq!(texts(&actions), vec!["summary:mail", "body:"]);
    assert_eq!(w.current_state_name(), "idle");
}

#[test]
fn animation_runs_then_moves_along_the_chain() {
    let mut w = NotificationWindow::new(chain_config());
    w.show_notification(notification("Firefox", "Download done", "a.zip"));
    assert_eq!(texts(&w.tick(1000)), vec!["frame:0/200"]);
    assert_eq!(w.animation_start_time(), Some(1000));
    assert_eq!(texts(&w.tick(1150)), vec!["frame:150/200"]);
    assert_eq!(texts(&w.tick(1200)), vec!["frame:done"]);
    assert_eq!(texts(&w.tick(2199)), vec!["frame:done"]);
    assert_eq!(w.current_state_name(), "pop_in");
    let actions = w.tick(2200);
    assert_eq!(
        texts(&actions),
        vec!["frame:done", "expanded:true", "textbox:true", "summary:Download done", "body:a.zip"]
    );
    assert_eq!(w.current_state_name(), "expand");
    assert_eq!(w.start_props().width, 48);
    assert_eq!(w.target_props().width, 400);
    assert_eq!(w.animation_start_time(), None);
}

#[test]
fn frame_carries_the_looks() {
    let mut w = NotificationWindow::new(chain_config());
    w.show_notification(notification("a", "b", "c"));
    let actions = w.tick(10);
    match &actions[0] {
        UiAction::ApplyFrame(f) => {
            assert_eq!(f.start.width, 0);
            assert_eq!(f.target.width, 48);
            assert_eq!(f.target.easing, "ease-out");
        }
        _ => panic!("expected a frame"),
    }
}

#[test]
fn full_cycle_returns_to_idle() {
    let mut w = NotificationWindow::new(chain_config());
    w.show_notification(notification("a", "b", "c"));
    let mut now = 0u64;
    let mut seen = vec![w.current_state_name().to_string()];
    for _ in 0..100 {
        let before = w.current_state_name().to_string();
        w.tick(now);
        if w.current_state_name() != before {
            seen.push(w.current_state_name().to_string());
        }
        now += 250;
    }
    assert_eq!(seen, vec!["pop_in", "expand", "collapse_to_circle", "pop_out", "idle"]);
    let last = w.tick(now);
    assert_eq!(texts(&last), vec!["frame:done"]);
}

#[test]
fn entering_idle_hides_the_window() {
    let mut w = NotificationWindow::new(chain_config());
    w.show_notification(notification("a", "b", "c"));
    let mut now = 0u64;
    let mut hid = false;
    for _ in 0..100 {
        let actions = texts(&w.tick(now));
        if w.current_state_name() == "idle" {
            assert_eq!(actions, vec!["frame:done", "expanded:false", "textbox:false", "window:false"]);
            hid = true;
            break;
        }
        now += 250;
    }
    assert!(hid);
}

#[test]
fn expanded_window_shows_new_text() {
    let mut w = NotificationWindow::new(chain_config());
    w.show_notification(notification("a", "first", "one"));
    w.tick(0);
    w.tick(1200);
    assert_eq!(w.current_state_name(), "expand");
    w.tick(1300);
    let start = w.animation_start_time();
    let actions = w.show_notification(notification("b", "second", "two"));
    assert_eq!(texts(&actions), vec!["summary:second", "body:two"]);
    assert_eq!(w.current_state_name(), "expand");
    assert_eq!(w.animation_start_time(), start);
}

#[test]
fn collapsing_window_expands_again() {
    let mut w = NotificationWindow::new(chain_config());
    w.show_notification(notification("a", "first", "one"));
    w.tick(0);
    w.tick(1200);
    w.tick(1200);
    w.tick(6500);
    assert_eq!(w.current_state_name(), "collapse_to_circle");
    let actions = w.show_notification(notification("b", "second", "two"));
    assert_eq!(
        texts(&actions),
        vec!["expanded:true", "textbox:true", "summary:second", "body:two"]
    );
    assert_eq!(w.current_state_name(), "expand");
    assert_eq!(w.start_props().width, 48);
}

#[test]
fn notification_during_pop_in_only_keeps_text() {
    let mut w = NotificationWindow::new(chain_config());
    w.show_notification(notification("a", "first", "one"));
    let actions = w.show_notification(notification("b", "second", "two"));
    assert!(actions.is_empty());
    assert_eq!(w.current_state_name(), "pop_in");
    w.tick(0);
    let actions = w.tick(1200);
    assert_eq!(
        texts(&actions),
        vec!["frame:done", "expanded:true", "textbox:true", "summary:second", "body:two"]
    );
}

#[test]
fn unknown_next_state_leaves_window_waiting() {
    let mut states = Table::new();
    states.insert("idle".to_string(), state(0, 0, 0, None));
    states.insert("pop_in".to_string(), state(48, 100, 0, Some("nowhere")));
    let mut w = NotificationWindow::new(Config { global: global(), states });
    w.show_notification(notification("a", "b", "c"));
    w.tick(5);
    let actions = w.tick(500);
    assert_eq!(texts(&actions), vec!["frame:done"]);
    assert_eq!(w.current_state_name(), "pop_in");
    assert_eq!(w.animation_start_time(), Some(5));
}

#[test]
fn repeated_tick_at_same_time_is_stable() {
    let mut w = NotificationWindow::new(chain_config());
    w.show_notification(notification("a", "b", "c"));
    w.tick(100);
    let first = w.tick(180);
    let second = w.tick(180);
    assert_eq!(first, second);
    assert_eq!(w.current_state_name(), "pop_in");
}

#[test]
fn zero_duration_state_is_done_at_once() {
    let mut states = Table::new();
    states.insert("idle".to_string(), state(0, 0, 0, None));
    states.insert("pop_in".to_string(), state(48, 0, 0, Some("idle")));
    let mut w = NotificationWindow::new(Config { global: global(), states });
    w.show_notification(notification("a", "b", "c"));
    let actions = w.tick(7);
    assert_eq!(texts(&actions), vec!["frame:done", "expanded:false", "textbox:false", "window:false"]);
    assert_eq!(w.current_state_name(), "idle");
}
