use touchpilot::hook::windows::touch_input::TouchInput;

#[test]
fn first_physical_move_returns_the_pointer_once() {
    let mut input = TouchInput::new();
    input.record_position((10, 20));
    assert!(input.promoted(true, true, false));
    assert!(input.in_contact());
    // A drag: physical input during the contact changes nothing.
    assert_eq!(input.physical(true), None);
    assert!(input.promoted(true, false, true));
    assert!(!input.in_contact());
    assert_eq!(input.physical(true), Some((10, 20)));
    assert_eq!(input.physical(true), None);
}

#[test]
fn physical_click_accepts_the_current_position() {
    let mut input = TouchInput::new();
    input.record_position((10, 20));
    input.promoted(true, true, false);
    input.promoted(true, false, true);
    assert_eq!(input.physical(false), None);
    assert_eq!(input.physical(true), None);
}

#[test]
fn hover_does_not_reach_focus_restoration() {
    let mut input = TouchInput::new();
    assert!(!input.promoted(true, false, false));
    // An overridden finger-down does not reach it either, nor save the position.
    input.record_position((1, 2));
    assert!(!input.promoted(false, true, false));
    assert!(!input.promoted(true, false, true));
    assert_eq!(input.physical(true), None);
}

#[test]
fn native_anchor_returns_the_pointer_without_promoted_messages() {
    let mut input = TouchInput::new();
    input.record_position((5, 6));
    input.native_report(Some((100, 100)), true);
    input.native_report(Some((200, 200)), true);
    assert_eq!(input.physical(true), Some((5, 6)));
    assert_eq!(input.physical(true), None);
    // With no physical position seen, the cursor at the first report anchors.
    let mut input = TouchInput::new();
    input.native_report(Some((100, 100)), true);
    assert_eq!(input.physical(true), Some((100, 100)));
}

#[test]
fn promoted_position_wins_over_native_anchor() {
    let mut input = TouchInput::new();
    input.record_position((1, 1));
    input.promoted(true, true, false);
    input.promoted(true, false, true);
    // A native report after promoted messages is owned by the promoted path.
    input.native_report(Some((9, 9)), true);
    assert_eq!(input.physical(true), Some((1, 1)));
}

#[test]
fn overridden_native_burst_returns_nothing_and_reset_forgets() {
    let mut input = TouchInput::new();
    input.record_position((1, 1));
    input.native_report(Some((9, 9)), true);
    input.native_report(Some((9, 9)), false);
    assert_eq!(input.physical(true), None);
    input.promoted(true, true, false);
    input.reset();
    assert!(!input.in_contact());
    assert_eq!(input.physical(true), None);
}
