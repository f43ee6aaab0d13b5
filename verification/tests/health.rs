use touchpilot::hook::hot_path::count_event;
use touchpilot::hook::windows::health::HookHealth;
use touchpilot::hook::windows::mouse::reset_movement;
use touchpilot::settings::Settings;
use touchpilot::shared::Shared;

#[test]
fn hook_is_reinstalled_after_two_silent_moves() {
    let mut health = HookHealth::new();
    assert!(!health.check(5, (0, 0)));
    assert!(!health.check(5, (1, 0))); // first silent move
    assert!(health.check(5, (2, 0))); // second silent move
    assert!(health.check(5, (3, 0)));
    assert!(!health.check(6, (4, 0))); // an event arrived
    assert!(!health.check(6, (4, 0))); // the cursor stood still
    assert!(!health.check(6, (5, 0)));
}

#[test]
fn event_counter_wraps() {
    let mut events = 0u64;
    count_event(&mut events);
    assert_eq!(events, 1);
    events = u64::MAX;
    count_event(&mut events);
    assert_eq!(events, 0);
    reset_movement();
}

#[test]
fn shared_state_applies_configuration() {
    let mut shared = Shared::new();
    assert!(!shared.touch_active());
    assert_eq!(shared.touch_policy.delay_ms, 120);
    let mut s = Settings::default();
    s.enabled = true;
    s.restore_focus = true;
    s.focus_restore_delay = 300;
    shared.apply(s.clone());
    assert!(shared.touch_active());
    assert!(shared.restore_keyboard_focus);
    assert_eq!(shared.touch_generation, 1);
    assert_eq!(shared.touch_policy.delay_ms, 300);
    shared.paused = true;
    assert!(!shared.touch_active());
    shared.touch_generation = u32::MAX;
    shared.apply(s);
    assert_eq!(shared.touch_generation, 0);
    assert!(!touchpilot::hook::windows::focus_restore::active(&shared));
    shared.paused = false;
    shared.hooked = true;
    assert!(touchpilot::hook::windows::focus_restore::active(&shared));
}

#[test]
fn default_settings_match_the_documented_defaults() {
    let s = Settings::default();
    assert!(!s.enabled && !s.restore_focus && !s.stylus_mouse_independent);
    assert_eq!(s.focus_restore_delay, 120);
    assert!(!s.focus_restore_on_mouse_move);
    assert!(s.touch_all_displays);
    assert!(s.touch_display_bounds.is_empty() && s.touch_override_modifier.is_empty());
    assert!(s.focus_keep_apps.is_empty() && s.focus_restore_apps.is_empty());
}
