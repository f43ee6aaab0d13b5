use touchpilot::hook::touch_policy::{apps, Modifier, TouchGesture, TouchPolicy};
use touchpilot::settings::Settings;

#[test]
fn override_survives_modifier_release_and_trailing_moves() {
    let mut gesture = TouchGesture::new();
    assert!(!gesture.accepts(false, true, false));
    assert!(!gesture.accepts(true, false, false));
    assert!(!gesture.accepts(true, false, true));
    assert!(!gesture.accepts(true, false, false));
    assert!(gesture.accepts(true, true, false));
    // Moving across a display boundary mid-drag does not change its policy.
    assert!(gesture.accepts(false, false, false));
    assert!(gesture.in_contact());
}

#[test]
fn gesture_reports_its_contact() {
    let mut gesture = TouchGesture::new();
    assert!(!gesture.in_contact());
    gesture.accepts(true, true, false);
    assert!(gesture.in_contact());
    gesture.accepts(true, false, true);
    assert!(!gesture.in_contact());
}

#[test]
fn app_rules_are_exact_and_keep_takes_precedence() {
    let mut l = Settings::default();
    l.focus_keep_apps = " chrome.exe ; Editor.exe".into();
    l.focus_restore_apps = "control.exe;editor.exe".into();
    let p = TouchPolicy::from_layout(&l);
    assert!(p.restores_app(Some(r"C:\Tools\CONTROL.EXE")));
    for path in [
        None,
        Some("editor.exe"),
        Some("chrome.exe"),
        Some("mycontrol.exe"),
        Some("other.exe"),
    ] {
        assert!(!p.restores_app(path));
    }
    l.focus_restore_apps.clear();
    assert!(TouchPolicy::from_layout(&l).restores_app(Some("other.exe")));
}

#[test]
fn delay_limits_and_defaults_without_display_bounds() {
    let mut layout = Settings::default();
    let p = TouchPolicy::from_layout(&layout);
    assert_eq!(p.delay_ms, 120);
    assert!(!p.on_mouse_move);
    assert!(p.all_displays);
    assert_eq!(p.modifier, Modifier::NoModifier);
    layout.focus_restore_delay = -1;
    assert_eq!(TouchPolicy::from_layout(&layout).delay_ms, 0);
    layout.focus_restore_delay = 99999;
    assert_eq!(TouchPolicy::from_layout(&layout).delay_ms, 5000);
    layout.focus_restore_delay = 5000;
    assert_eq!(TouchPolicy::from_layout(&layout).delay_ms, 5000);
    layout.focus_restore_delay = 0;
    assert_eq!(TouchPolicy::from_layout(&layout).delay_ms, 0);
    let d = TouchPolicy::default();
    assert_eq!(d.delay_ms, 120);
    assert!(d.keep_apps.is_empty() && d.restore_apps.is_empty());
}

#[test]
fn modifier_names_are_case_insensitive() {
    let mut l = Settings::default();
    for (text, expected) in [
        ("ctrl", Modifier::Ctrl),
        ("CTRL", Modifier::Ctrl),
        ("Alt", Modifier::Alt),
        ("shift", Modifier::Shift),
        ("WiN", Modifier::Win),
        ("", Modifier::NoModifier),
        (" ctrl", Modifier::NoModifier),
        ("control", Modifier::NoModifier),
    ] {
        l.touch_override_modifier = text.into();
        assert_eq!(TouchPolicy::from_layout(&l).modifier, expected, "{text}");
    }
}

#[test]
fn app_lists_split_trim_and_lowercase() {
    assert_eq!(apps(""), Vec::<String>::new());
    assert_eq!(apps(" ; ;\r\n"), Vec::<String>::new());
    assert_eq!(apps(" Chrome.EXE ;\tEditor.exe\r\nX"), vec!["chrome.exe", "editor.exe", "x"]);
    assert_eq!(apps("a;;b"), vec!["a", "b"]);
    // Non-ASCII letters keep their case; only ASCII is folded.
    assert_eq!(apps("Ärger.EXE"), vec!["Ärger.exe"]);
    // Unicode spaces are trimmed as str::trim does.
    assert_eq!(apps("\u{3000}App.exe\u{a0}"), vec!["app.exe"]);
}

#[test]
fn unresolved_process_is_restored_only_without_rules() {
    let l = Settings::default();
    let p = TouchPolicy::from_layout(&l);
    assert!(p.restores_app(None));
    assert!(p.restores_app(Some("anything.exe")));
    let mut l = Settings::default();
    l.focus_keep_apps = "a.exe".into();
    let p = TouchPolicy::from_layout(&l);
    assert!(!p.restores_app(None));
    assert!(p.restores_app(Some("b.exe")));
    assert!(!p.restores_app(Some("/usr/bin/A.EXE")));
    assert!(p.restores_app(Some("C:\\a.exe\\")));
}

#[test]
fn gesture_on_unselected_display_is_bypassed_until_next_down() {
    let mut g = TouchGesture::new();
    assert!(g.accepts(true, true, false));
    assert!(g.accepts(true, false, true));
    assert!(!g.in_contact());
    // A new finger-down on an unselected display bypasses the gesture.
    assert!(!g.accepts(false, true, false));
    assert!(!g.accepts(true, false, true));
    // A trailing promoted move after the release stays bypassed.
    assert!(!g.accepts(true, false, false));
}
