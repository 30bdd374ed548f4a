use notify::config::{Easing, GlobalConfig, State};
use notify::dbus::{accept_notification, capabilities, server_information};
use notify::icon::{choose_icon, icon_dirs, icon_plan, resolve_icon_file, search_icon_path, IconCandidate, IconChoice};
use notify::table::Table;

fn global(anchor: &[&str], monitor: Option<&str>) -> GlobalConfig {
    GlobalConfig {
        anchor: anchor.iter().map(|s| s.to_string()).collect(),
        margin_top: 1,
        margin_bottom: 2,
        margin_left: 3,
        margin_right: 4,
        monitor: monitor.map(|s| s.to_string()),
        icon_path: None,
    }
}

fn cand(dir: Option<&str>, file: &str) -> IconCandidate {
    IconCandidate { dir: dir.map(|d| d.to_string()), file: file.to_string() }
}

#[test]
fn anchors_follow_names() {
    let a = global(&["top", "right", "middle"], None).anchors();
    assert!(a.top && a.right && !a.bottom && !a.left);
    let b = global(&["bottom", "left", "Top"], None).anchors();
    assert!(!b.top && !b.right && b.bottom && b.left);
    let c = global(&[], None).anchors();
    assert!(!c.top && !c.right && !c.bottom && !c.left);
}

#[test]
fn monitor_index_picks_first_match() {
    let names = vec![None, Some("HDMI-A-1".to_string()), Some("DP-2".to_string()), Some("DP-2".to_string())];
    assert_eq!(global(&[], Some("DP-2")).monitor_index(&names), Some(2));
    assert_eq!(global(&[], Some("eDP-1")).monitor_index(&names), None);
    assert_eq!(global(&[], None).monitor_index(&names), None);
}

#[test]
fn easing_names() {
    assert_eq!(Easing::from_name("ease-in"), Easing::EaseIn);
    assert_eq!(Easing::from_name("ease-out"), Easing::EaseOut);
    assert_eq!(Easing::from_name("ease-in-out"), Easing::EaseInOut);
    assert_eq!(Easing::from_name("linear"), Easing::Linear);
    assert_eq!(Easing::from_name("bounce"), Easing::Linear);
}

#[test]
fn fallback_state_and_copy() {
    let s = State::fallback();
    assert_eq!((s.width, s.height, s.margin_top, s.border_radius), (0, 0, 0, 0));
    assert_eq!((s.duration_ms, s.wait_ms), (0, 0));
    assert_eq!(s.easing, "linear");
    assert_eq!(s.next_state, None);
    assert_eq!(f64::from_bits(s.opacity_bits), 0.0);
    let mut t = s.clone();
    t.next_state = Some("idle".to_string());
    assert_eq!(t.duplicate(), t);
}

#[test]
fn notify_answers_one_and_keeps_fields() {
    let mut hints = Table::new();
    hints.insert("desktop-entry".to_string(), "discord".to_string());
    let (n, reply) = accept_notification(
        "Discord".to_string(),
        42,
        "discord".to_string(),
        "New message".to_string(),
        "hello".to_string(),
        hints,
        5000,
    );
    assert_eq!(reply, 1);
    assert_eq!(n.id, 42);
    assert_eq!(n.app_name, "Discord");
    assert_eq!(n.summary, "New message");
    assert_eq!(n.body, "hello");
    assert_eq!(n.expire_timeout, 5000);
    assert!(n.hints.contains("desktop-entry"));
}

#[test]
fn capabilities_and_information() {
    assert_eq!(capabilities(), vec!["body", "icon-static"]);
    assert_eq!(
        server_information(),
        ("notify".to_string(), "notify-project".to_string(), "0.1.0".to_string(), "1.2".to_string())
    );
}

#[test]
fn resolve_icon_file_forms() {
    assert_eq!(resolve_icon_file("file:///tmp/a.png", "/home/u"), Some("/tmp/a.png".to_string()));
    assert_eq!(resolve_icon_file("  ~/pics/a.png ", "/home/u"), Some("/home/u/pics/a.png".to_string()));
    assert_eq!(resolve_icon_file("~", ""), Some("".to_string()));
    assert_eq!(resolve_icon_file("icons/a.svg", "/home/u"), Some("icons/a.svg".to_string()));
    assert_eq!(resolve_icon_file("/abs/b.png", "/home/u"), Some("/abs/b.png".to_string()));
    assert_eq!(resolve_icon_file("firefox", "/home/u"), None);
    assert_eq!(resolve_icon_file("   ", "/home/u"), None);
}

#[test]
fn icon_dirs_skip_blank_entries() {
    assert_eq!(icon_dirs(" /a :: /b/c :  "), vec!["/a", "/b/c"]);
    assert_eq!(icon_dirs(""), Vec::<String>::new());
}

#[test]
fn search_tries_each_dir_and_suffix() {
    let found = search_icon_path(&Some("/x:/y".to_string()), "app");
    assert_eq!(
        found,
        vec![
            cand(Some("/x"), "app.png"),
            cand(Some("/x"), "app.svg"),
            cand(Some("/x"), "app.svgz"),
            cand(Some("/x"), "app.xpm"),
            cand(Some("/x"), "app.ico"),
            cand(Some("/y"), "app.png"),
            cand(Some("/y"), "app.svg"),
            cand(Some("/y"), "app.svgz"),
            cand(Some("/y"), "app.xpm"),
            cand(Some("/y"), "app.ico"),
        ]
    );
    assert!(search_icon_path(&None, "app").is_empty());
}

fn notif(app_name: &str, app_icon: &str, hints: &[(&str, &str)]) -> notify::dbus::Notification {
    let mut t = Table::new();
    for (k, v) in hints {
        t.insert(k.to_string(), v.to_string());
    }
    accept_notification(app_name.to_string(), 0, app_icon.to_string(), String::new(), String::new(), t, -1).0
}

#[test]
fn image_path_hint_comes_first() {
    let n = notif("Firefox", "firefox", &[("image-path", " file:///tmp/p.png ")]);
    let plan = icon_plan(&n, &Some("/icons".to_string()), "/home/u");
    assert_eq!(plan.fallback, "file:///tmp/p.png");
    assert_eq!(plan.candidates[0], cand(None, "/tmp/p.png"));
    assert_eq!(plan.candidates[1], cand(Some("/icons"), "file:///tmp/p.png.png"));
    assert_eq!(plan.candidates.len(), 6);
}

#[test]
fn blank_image_path_falls_back_to_app_icon() {
    let n = notif("Firefox", " firefox ", &[("image-path", "   ")]);
    let plan = icon_plan(&n, &Some("/icons".to_string()), "/home/u");
    assert_eq!(plan.fallback, "firefox");
    assert_eq!(plan.candidates.len(), 5);
    assert_eq!(plan.candidates[0], cand(Some("/icons"), "firefox.png"));
}

#[test]
fn desktop_entry_then_app_name_then_generic() {
    let n = notif("Discord", "", &[("desktop-entry", "discord")]);
    let plan = icon_plan(&n, &None, "/home/u");
    assert_eq!(plan.fallback, "discord");
    assert!(plan.candidates.is_empty());

    let n = notif("My App", "", &[]);
    let plan = icon_plan(&n, &Some("/i".to_string()), "/home/u");
    assert_eq!(plan.fallback, "My App");
    assert_eq!(plan.candidates[0], cand(Some("/i"), "My App.png"));

    let n = notif("", "  ", &[]);
    let plan = icon_plan(&n, &Some("/i".to_string()), "/home/u");
    assert_eq!(plan.fallback, "dialog-information");
    assert!(plan.candidates.is_empty());
}

#[test]
fn choose_first_existing_file() {
    let n = notif("x", "~/a.png", &[]);
    let plan = icon_plan(&n, &Some("/i".to_string()), "/home/u");
    assert_eq!(plan.candidates.len(), 6);
    let mut exists = vec![false; 6];
    exists[2] = true;
    exists[4] = true;
    assert_eq!(choose_icon(&plan, &exists), IconChoice::File(cand(Some("/i"), "~/a.png.svg")));
    exists[0] = true;
    assert_eq!(choose_icon(&plan, &exists), IconChoice::File(cand(None, "/home/u/a.png")));
    let none = vec![false; 6];
    assert_eq!(choose_icon(&plan, &none), IconChoice::Name("~/a.png".to_string()));
}
