use touchpilot::hook::touch::{is_pen, is_touch, NativeTouchResume, TouchResume};

#[test]
fn native_taps_keep_the_original_anchor_until_physical_input() {
    let mut state = NativeTouchResume::new();
    assert_eq!(state.target(true), None);
    state.observe(Some((1600, 873)), true);
    state.observe(Some((2662, 2547)), true);
    assert_eq!(state.target(true), Some((1600, 873)));
    assert_eq!(state.target(false), None);
    state = NativeTouchResume::new(); // physical movement, click, reset, or pen
    assert_eq!(state.target(true), None);
}

#[test]
fn native_override_cannot_rearm_when_modifier_is_released() {
    let mut state = NativeTouchResume::new();
    state.observe(Some((10, 20)), true);
    state.observe(Some((10, 20)), false);
    state.observe(Some((10, 20)), true);
    assert_eq!(state.target(true), None);
}

#[test]
fn promoted_policy_wins_regardless_of_raw_message_order() {
    for raw_first in [false, true] {
        let mut state = NativeTouchResume::new();
        if raw_first {
            state.observe(Some((10, 20)), true);
        }
        state.promoted();
        state.observe(Some((10, 20)), true);
        assert_eq!(state.target(true), None);
    }
}

#[test]
fn signatures_distinguish_mouse_pen_and_touch() {
    for id in 0..128 {
        assert!(is_touch(0xff51_5780 | id));
        assert!(!is_pen(0xff51_5780 | id));
        assert!(is_pen(0xff51_5700 | id));
        assert!(!is_touch(0xff51_5700 | id));
    }
    assert!(!is_touch(0));
    assert!(!is_touch(0x80));
}

#[test]
fn repeated_taps_preserve_original_position_and_restore_once() {
    let mut state = TouchResume::new();
    state.touch(Some((-500, 200)), true, false);
    assert_eq!(state.resume(), None); // never warp during a touch drag
    state.touch(Some((1500, 700)), false, true);
    state.touch(Some((1600, 800)), true, false);
    state.touch(Some((1600, 800)), false, true);
    assert_eq!(state.resume(), Some((-500, 200)));
    assert_eq!(state.resume(), None);
}

#[test]
fn reset_discards_pending_restore_and_contact() {
    let mut state = TouchResume::new();
    state.touch(Some((10, 20)), true, false);
    state.reset();
    assert_eq!(state.resume(), None);
    state.touch(Some((30, 40)), false, false);
    assert_eq!(state.resume(), Some((30, 40)));
}

#[test]
fn failed_cursor_read_does_not_invent_a_position() {
    let mut state = TouchResume::new();
    state.touch(None, true, false);
    state.touch(None, false, true);
    assert_eq!(state.resume(), None);
}

#[test]
fn pending_reports_saved_position_or_contact() {
    let mut state = TouchResume::new();
    assert!(!state.pending());
    assert!(!state.in_contact());
    state.touch(None, true, false);
    assert!(state.pending());
    assert!(state.in_contact());
    state.touch(Some((5, 6)), false, true);
    assert!(state.pending());
    assert!(!state.in_contact());
    assert_eq!(state.resume(), Some((5, 6)));
    assert!(!state.pending());
}

#[test]
fn native_pending_follows_target_on_selected_display() {
    let mut state = NativeTouchResume::new();
    assert!(!state.pending());
    state.observe(None, true);
    assert!(!state.pending());
    state.observe(Some((7, 8)), true);
    assert!(state.pending());
    state.promoted();
    assert!(!state.pending());
}

#[test]
fn other_mouse_extra_info_is_neither_touch_nor_pen() {
    for extra in [0usize, 0xff51_5800, 0xff50_5780, 0x1234_5678] {
        assert!(!(is_touch(extra) && is_pen(extra)));
    }
    assert!(!is_touch(0xff51_5800));
    assert!(!is_pen(0xff51_5800));
}
