use touchpilot::hook::focus_restore::{before_touch, FocusSnapshot, RestoreRequest, WindowIdentity};

fn window(handle: isize) -> WindowIdentity {
    WindowIdentity {
        handle,
        process: 10,
        thread: 20,
    }
}

fn request() -> RestoreRequest {
    RestoreRequest {
        origin: window(1),
        control: Some(window(11)),
        touched: window(2),
        input_time: u32::MAX,
        generation: 3,
        sequence: 4,
    }
}

#[test]
fn restores_only_if_touch_is_still_the_last_user_action() {
    let r = request();
    assert!(r.should_restore(Some(window(1)), Some(window(2)), Some(u32::MAX), true, 3, 4));
    for time in [None, Some(0), Some(100)] {
        assert!(!r.should_restore(Some(window(1)), Some(window(2)), time, true, 3, 4));
    }
}

#[test]
fn stop_reload_new_touch_or_explicit_window_switch_cancels() {
    let r = request();
    for (active, generation, sequence) in [(false, 3, 4), (true, 5, 4), (true, 3, 6)] {
        assert!(!r.should_restore(
            Some(window(1)),
            Some(window(2)),
            Some(u32::MAX),
            active,
            generation,
            sequence
        ));
    }
    for foreground in [None, Some(window(3))] {
        assert!(!r.should_restore(Some(window(1)), foreground, Some(u32::MAX), true, 3, 4));
    }
}

#[test]
fn closed_or_reused_origin_and_same_window_taps_are_ignored() {
    let mut r = request();
    for origin in [
        None,
        Some(WindowIdentity {
            process: 99,
            ..window(1)
        }),
    ] {
        assert!(!r.should_restore(origin, Some(window(2)), Some(u32::MAX), true, 3, 4));
    }
    r.touched = r.origin;
    assert!(!r.should_restore(Some(window(1)), Some(window(1)), Some(u32::MAX), true, 3, 4));
}

#[test]
fn already_active_original_still_needs_its_editor_focus_restored() {
    let r = request();
    assert!(r.should_restore(Some(window(1)), Some(window(1)), Some(u32::MAX), true, 3, 4));
    assert_eq!(r.control, Some(window(11)));
}

#[test]
fn touch_that_activates_before_mouse_promotion_keeps_the_previous_editor() {
    let editor = FocusSnapshot {
        window: window(1),
        control: Some(window(11)),
    };
    let touched = FocusSnapshot {
        window: window(2),
        control: Some(window(22)),
    };
    assert_eq!(
        before_touch(Some(touched), Some(editor), Some(window(2))),
        Some(editor)
    );
    // A deliberate switch to a third app beats the cached earlier app.
    let other = FocusSnapshot {
        window: window(3),
        control: None,
    };
    assert_eq!(
        before_touch(Some(other), Some(editor), Some(window(2))),
        Some(other)
    );
    assert_eq!(before_touch(None, None, Some(window(2))), None);
}

#[test]
fn origin_falls_back_to_touched_window_only_without_alternative() {
    let touched = FocusSnapshot {
        window: window(2),
        control: None,
    };
    // Neither the current nor the previous focus avoids the touched window.
    assert_eq!(
        before_touch(Some(touched), Some(touched), Some(window(2))),
        Some(touched)
    );
    // No current focus: the previous one outside the touched window is kept.
    let editor = FocusSnapshot {
        window: window(1),
        control: Some(window(11)),
    };
    assert_eq!(before_touch(None, Some(editor), Some(window(2))), Some(editor));
    // Nothing resolved under the finger: the current focus is the origin.
    assert_eq!(before_touch(Some(editor), None, None), Some(editor));
}

#[test]
fn reused_handle_in_another_thread_is_not_the_origin() {
    let r = request();
    let reused = WindowIdentity {
        thread: 77,
        ..window(1)
    };
    assert!(!r.should_restore(Some(reused), Some(window(2)), Some(u32::MAX), true, 3, 4));
}
