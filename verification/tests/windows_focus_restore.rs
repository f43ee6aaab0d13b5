use touchpilot::hook::focus_restore::{FocusSnapshot, RestoreRequest, WindowIdentity};
use touchpilot::shared::Shared;
use touchpilot::hook::windows::focus_restore::{
    active,
    cancel_native, captures, delay_slice, finish_native, native_contact, native_release_target,
    on_physical_input, on_touch_window, reset, superseded, keeps_waiting, worker_delay, retry_deferred, settle_native, thread_busy,
    touch_released, FocusState, PhysicalAction, RestoreOutcome, TouchAction, BUTTON_DOWN,
    BUTTON_UP,
};

fn window(handle: isize) -> WindowIdentity {
    WindowIdentity {
        handle,
        process: 10,
        thread: 20,
    }
}

#[test]
fn disabled_focus_does_not_resolve_the_touched_window() {
    let shared = Shared::new();
    let mut state = FocusState::new();
    let touched = on_touch_window(&mut state, active(&shared), BUTTON_UP, || {
        panic!("disabled focus must not query the touched window")
    }, 0, || panic!("disabled focus must not read the focus"));
    assert_eq!(touched, None);
    assert_eq!(state, FocusState::new());
}

#[test]
fn native_swipe_uses_activated_panel_after_it_moves_away_from_release_point() {
    let window = |handle| WindowIdentity {
        handle,
        process: 10,
        thread: 20,
    };
    let origin = Some(window(1));
    let desktop = Some(window(2));
    let panel = Some(window(3));
    assert_eq!(native_release_target(origin, desktop, panel), panel);
    assert_eq!(native_release_target(origin, None, panel), panel);
    // A nonactivating touch still uses hit-testing, never the original editor.
    assert_eq!(native_release_target(origin, panel, origin), panel);
    assert_eq!(native_release_target(origin, panel, None), panel);
    assert_eq!(native_release_target(None, desktop, panel), desktop);
}

fn editor() -> FocusSnapshot {
    FocusSnapshot {
        window: window(1),
        control: Some(window(11)),
    }
}

#[test]
fn native_release_fires_once_and_duplicate_cannot_rearm() {
    let mut state = FocusState::new();
    assert!(captures(&state, true));
    assert!(!native_contact(&mut state, &mut 0, true, true, Some(editor()), 3, Some(100)));
    assert!(!captures(&state, true));
    assert!(native_contact(&mut state, &mut 0, true, false, None, 3, Some(101)));
    assert!(!native_contact(&mut state, &mut 0, true, false, None, 3, Some(102)));
    let capture = state.native_capture.unwrap();
    assert!(!capture.contact);
    assert_eq!(capture.input_time, Some(101)); // the duplicate changes nothing
    assert_eq!(capture.current, Some(editor()));
}

#[test]
fn native_capture_advances_sequence_only_while_active() {
    let mut state = FocusState::new();
    let mut sequence = 5u64;
    // A new capture advances the sequence; the release and a duplicate do not.
    native_contact(&mut state, &mut sequence, true, true, Some(editor()), 3, Some(100));
    assert_eq!(sequence, 6);
    native_contact(&mut state, &mut sequence, true, true, Some(editor()), 3, Some(101));
    assert_eq!(sequence, 6);
    native_contact(&mut state, &mut sequence, true, false, None, 3, Some(102));
    native_contact(&mut state, &mut sequence, true, false, None, 3, Some(103));
    assert_eq!(sequence, 6);
    // A finger-down while restoration is inactive captures nothing.
    let mut state = FocusState::new();
    assert!(!native_contact(&mut state, &mut sequence, false, true, Some(editor()), 3, Some(104)));
    assert_eq!(sequence, 6);
    assert!(state.native_capture.is_none());
    // The sequence wraps around.
    let mut last = u64::MAX;
    native_contact(&mut state, &mut last, true, true, None, 3, Some(105));
    assert_eq!(last, 0);
}

#[test]
fn promoted_touch_advances_sequence_on_every_message() {
    let mut state = FocusState::new();
    let mut sequence = 0u64;
    on_touch_window(&mut state, true, BUTTON_DOWN, || Some(window(2)), 0, || Some(editor()));
    assert_eq!(
        touch_released(&mut state, &mut sequence, Some(window(2)), Some(50), true, 7, Some(false)),
        TouchAction::Wait
    );
    assert_eq!(sequence, 1);
    on_touch_window(&mut state, true, BUTTON_UP, || Some(window(2)), 0, || None);
    match touch_released(&mut state, &mut sequence, Some(window(2)), Some(50), true, 7, Some(false)) {
        TouchAction::Send(request) => assert_eq!(request.sequence, 2),
        other => panic!("expected a request, got {other:?}"),
    }
    assert_eq!(sequence, 2);
}

#[test]
fn native_contact_keeps_editor_of_unchanged_window() {
    let mut state = FocusState::new();
    reset(&mut state, &mut 0, Some(editor()));
    let cleared = FocusSnapshot {
        window: window(1),
        control: None,
    };
    native_contact(&mut state, &mut 0, true, true, Some(cleared), 0, Some(5));
    assert_eq!(state.native_capture.unwrap().current, Some(editor()));
    let mut state = FocusState::new();
    reset(&mut state, &mut 0, Some(editor()));
    let other = FocusSnapshot {
        window: window(4),
        control: None,
    };
    native_contact(&mut state, &mut 0, true, true, Some(other), 0, Some(5));
    assert_eq!(state.native_capture.unwrap().current, Some(other));
}

#[test]
fn inactive_restoration_cancels_native_touch() {
    let mut state = FocusState::new();
    native_contact(&mut state, &mut 0, true, true, Some(editor()), 0, Some(1));
    assert!(state.native_capture.is_some());
    assert!(!native_contact(&mut state, &mut 0, false, false, None, 0, Some(2)));
    assert!(state.native_capture.is_none());
    // A release without a capture does nothing.
    assert!(!native_contact(&mut state, &mut 0, true, false, None, 0, Some(2)));
    assert!(state.native_capture.is_none());
}

#[test]
fn settled_release_requires_unchanged_input_and_generation() {
    let release = |generation, input| {
        let mut state = FocusState::new();
        native_contact(&mut state, &mut 0, true, true, Some(editor()), 3, Some(10));
        native_contact(&mut state, &mut 0, true, false, None, 3, Some(11));
        let capture = finish_native(&mut state, true, generation, input);
        assert!(state.native_capture.is_none());
        capture
    };
    assert!(release(3, Some(11)).is_some());
    assert!(release(4, Some(11)).is_none());
    assert!(release(3, Some(12)).is_none());
    let mut state = FocusState::new();
    native_contact(&mut state, &mut 0, true, true, Some(editor()), 3, Some(10));
    assert!(finish_native(&mut state, true, 3, Some(10)).is_none()); // finger still down
    let mut state = FocusState::new();
    cancel_native(&mut state);
    assert!(finish_native(&mut state, true, 3, None).is_none());
}

#[test]
fn settled_release_sets_origin_and_target() {
    let mut state = FocusState::new();
    native_contact(&mut state, &mut 0, true, true, Some(editor()), 3, Some(10));
    native_contact(&mut state, &mut 0, true, false, None, 3, Some(11));
    let capture = finish_native(&mut state, true, 3, Some(11)).unwrap();
    let panel = Some(window(3));
    let touched = settle_native(&mut state, capture, Some(window(2)), panel);
    assert_eq!(touched, panel);
    assert_eq!(state.origin, Some(editor()));
    assert_eq!(state.last_request, 0);
}

#[test]
fn promoted_touch_sends_request_on_release() {
    let mut state = FocusState::new();
    on_touch_window(&mut state, true, BUTTON_DOWN, || Some(window(2)), 0, || Some(editor()));
    assert_eq!(state.origin, Some(editor()));
    assert_eq!(
        touch_released(&mut state, &mut 0, Some(window(2)), Some(50), true, 7, Some(false)),
        TouchAction::Wait
    );
    // The origin is already captured: the focus is not read again.
    on_touch_window(&mut state, true, BUTTON_UP, || Some(window(2)), 0, || {
        panic!("the origin must not be read twice")
    });
    let action = touch_released(&mut state, &mut 1, Some(window(2)), Some(50), true, 7, Some(false));
    let expected = RestoreRequest {
        origin: window(1),
        control: Some(window(11)),
        touched: window(2),
        input_time: 50,
        generation: 7,
        sequence: 2,
    };
    assert_eq!(action, TouchAction::Send(expected));
    assert_eq!(state.last_request, 2);
    // The worker finished request 2: the next touch captures a new origin.
    let other = FocusSnapshot {
        window: window(5),
        control: None,
    };
    on_touch_window(&mut state, true, BUTTON_DOWN, || Some(window(2)), 2, || Some(other));
    assert_eq!(state.origin, Some(other));
    assert_eq!(state.last_request, 0);
}

#[test]
fn release_without_origin_or_worker_resets() {
    let mut state = FocusState::new();
    on_touch_window(&mut state, true, BUTTON_UP, || Some(window(2)), 0, || None);
    assert_eq!(
        touch_released(&mut state, &mut 0, Some(window(2)), Some(1), true, 0, Some(false)),
        TouchAction::Reset
    );
    let mut state = FocusState::new();
    on_touch_window(&mut state, true, BUTTON_UP, || Some(window(2)), 0, || Some(editor()));
    assert_eq!(
        touch_released(&mut state, &mut 0, Some(window(2)), Some(1), false, 0, Some(false)),
        TouchAction::Reset
    );
    assert_eq!(
        touch_released(&mut state, &mut 0, Some(window(2)), None, true, 0, Some(false)),
        TouchAction::Reset
    );
    assert_eq!(
        touch_released(&mut state, &mut 0, Some(window(2)), Some(1), true, 0, None),
        TouchAction::Reset
    );
}

#[test]
fn mouse_move_policy_defers_until_physical_movement() {
    let mut state = FocusState::new();
    on_touch_window(&mut state, true, BUTTON_UP, || Some(window(2)), 0, || Some(editor()));
    assert_eq!(
        touch_released(&mut state, &mut 8, Some(window(2)), Some(40), true, 7, Some(true)),
        TouchAction::Defer
    );
    assert_eq!(state.deferred_first, 9);
    let deferred = state.deferred.unwrap();
    // Input during contact is ignored; a click cancels.
    assert_eq!(
        on_physical_input(&state, true, true, true, 7, 0, Some(window(2)), Some(41)),
        PhysicalAction::Ignore
    );
    assert_eq!(
        on_physical_input(&state, false, false, true, 7, 0, Some(window(2)), Some(41)),
        PhysicalAction::Reset
    );
    // Movement with the touched window in front retries with the new input time.
    let action = on_physical_input(&state, true, false, true, 7, 0, Some(window(2)), Some(41));
    let retried = RestoreRequest {
        input_time: 41,
        ..deferred
    };
    assert_eq!(action, PhysicalAction::Retry(retried));
    let mut sequence = 9u64;
    let sent = retry_deferred(&mut state, &mut sequence, retried);
    assert_eq!(sequence, 10);
    assert_eq!(sent.sequence, 10);
    assert_eq!(sent.input_time, 41);
    assert_eq!(state.last_request, 10);
    assert_eq!(state.deferred, Some(sent));
    // Once the worker resolved the gesture, movement no longer retries.
    assert_eq!(
        on_physical_input(&state, true, false, true, 7, 9, Some(window(2)), Some(42)),
        PhysicalAction::Reset
    );
    // A third app in front, a reload, or an inactive service cancels.
    assert_eq!(
        on_physical_input(&state, true, false, true, 7, 0, Some(window(8)), Some(42)),
        PhysicalAction::Reset
    );
    assert_eq!(
        on_physical_input(&state, true, false, true, 8, 0, Some(window(2)), Some(42)),
        PhysicalAction::Reset
    );
    assert_eq!(
        on_physical_input(&state, true, false, false, 7, 0, Some(window(2)), Some(42)),
        PhysicalAction::Reset
    );
}

#[test]
fn reset_clears_the_gesture() {
    let mut state = FocusState::new();
    on_touch_window(&mut state, true, BUTTON_UP, || Some(window(2)), 0, || Some(editor()));
    touch_released(&mut state, &mut 8, Some(window(2)), Some(40), true, 7, Some(true));
    native_contact(&mut state, &mut 0, true, true, Some(editor()), 7, Some(1));
    let previous = Some(FocusSnapshot {
        window: window(6),
        control: None,
    });
    let mut sequence = 41u64;
    reset(&mut state, &mut sequence, previous);
    assert_eq!(sequence, 42);
    let mut last = u64::MAX;
    reset(&mut state, &mut last, previous);
    assert_eq!(last, 0);
    assert!(state.native_capture.is_none());
    assert!(state.origin.is_none());
    assert!(state.deferred.is_none());
    assert!(!state.released);
    assert_eq!(state.previous, previous);
    assert_eq!(
        on_physical_input(&state, true, false, true, 7, 0, Some(window(2)), Some(42)),
        PhysicalAction::Reset
    );
}

#[test]
fn worker_outcomes_and_delay_slices() {
    assert!(!RestoreOutcome::SkippedChanged.resolves_gesture());
    assert!(!RestoreOutcome::SkippedDuringActivation.resolves_gesture());
    assert!(!RestoreOutcome::SkippedAfterActivation.resolves_gesture());
    assert!(RestoreOutcome::SkippedAppRule.resolves_gesture());
    assert!(RestoreOutcome::Restored.resolves_gesture());
    assert!(RestoreOutcome::RefusedForeground.resolves_gesture());
    assert_eq!(delay_slice(120), 10);
    assert_eq!(delay_slice(7), 7);
    assert_eq!(delay_slice(0), 0);
    let request = RestoreRequest {
        origin: window(1),
        control: None,
        touched: window(2),
        input_time: 0,
        generation: 0,
        sequence: 5,
    };
    assert!(!superseded(&request, 5));
    assert!(superseded(&request, 6));
    assert!(keeps_waiting(&request, 10, 5));
    assert!(!keeps_waiting(&request, 0, 5));
    assert!(!keeps_waiting(&request, 10, 6));
    assert!(thread_busy(None, false));
    assert!(thread_busy(Some(0x2), false));
    assert!(thread_busy(Some(0), true));
    assert!(!thread_busy(Some(0x1), false));
    assert!(!thread_busy(Some(0x20), false));
    let mut policy = touchpilot::hook::touch_policy::TouchPolicy::default();
    assert_eq!(worker_delay(&policy), 120);
    policy.on_mouse_move = true;
    assert_eq!(worker_delay(&policy), 0);
}
