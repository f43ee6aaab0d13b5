//! Capture the editor as well as its top-level window, and restore on a worker.
//! The adapter reads the windows, the input clock and the shared counters and
//! performs every OS call; the per-gesture state of the message-pump thread and
//! every decision over it are here.
use vstd::prelude::*;
use crate::hook::focus_restore::{self, before_touch, FocusSnapshot, RestoreRequest, WindowIdentity};
use crate::hook::touch_policy::{restores, texts, TouchPolicy};
use crate::shared::Shared;

verus! {

/// Focus restoration is wanted, touch independence is active, and the hook runs.
pub open spec fn spec_active(shared: &Shared) -> bool {
    shared.restore_keyboard_focus && shared.spec_touch_active() && shared.hooked
}

pub fn active(shared: &Shared) -> (active: bool)
    ensures
        active == spec_active(shared),
{
    shared.restore_keyboard_focus && shared.touch_active() && shared.hooked
}

/// The mouse message of a finger that goes down (`WM_LBUTTONDOWN`).
pub const BUTTON_DOWN: u32 = 0x0201;

/// The mouse message of a finger that goes up (`WM_LBUTTONUP`).
pub const BUTTON_UP: u32 = 0x0202;

/// The focus captured when a native touch went down.
#[derive(Clone, Copy, Debug, PartialEq, Eq, Structural)]
pub struct NativeCapture {
    pub current: Option<FocusSnapshot>,
    pub previous: Option<FocusSnapshot>,
    pub generation: u32,
    pub input_time: Option<u32>,
    pub contact: bool,
}

/// The gesture state of the message-pump thread.
#[derive(Clone, Copy, Debug, PartialEq, Eq, Structural)]
pub struct FocusState {
    /// The native touch in progress, if any.
    pub native_capture: Option<NativeCapture>,
    /// The focus to return to at the end of the current gesture.
    pub origin: Option<FocusSnapshot>,
    /// The focus seen during the last physical mouse activity.
    pub previous: Option<FocusSnapshot>,
    /// The sequence number of the last request handed to the worker, or 0.
    pub last_request: u64,
    /// Whether the last promoted touch message released the finger.
    pub released: bool,
    /// A request that waits for the next physical mouse movement.
    pub deferred: Option<RestoreRequest>,
    /// The sequence number at which the deferred request was first made.
    pub deferred_first: u64,
}

/// The state of a thread that has seen no input.
pub open spec fn initial_state() -> FocusState {
    FocusState {
        native_capture: None,
        origin: None,
        previous: None,
        last_request: 0,
        released: false,
        deferred: None,
        deferred_first: 0,
    }
}

impl FocusState {
    pub fn new() -> (state: Self)
        ensures
            state == initial_state(),
    {
        FocusState {
            native_capture: None,
            origin: None,
            previous: None,
            last_request: 0,
            released: false,
            deferred: None,
            deferred_first: 0,
        }
    }
}

/// Drops a native touch in progress.
pub fn cancel_native(state: &mut FocusState)
    ensures
        *final(state) == (FocusState { native_capture: None, ..*old(state) }),
{
    state.native_capture = None;
}

/// The state after a reset, when `previous_now` is the focus at that moment.
pub open spec fn reset_state(s: FocusState, previous_now: Option<FocusSnapshot>) -> FocusState {
    FocusState {
        native_capture: None,
        origin: None,
        previous: previous_now,
        last_request: 0,
        released: false,
        deferred: None,
        ..s
    }
}

/// The shared request sequence after one more advance; it wraps around.
pub open spec fn next_sequence(sequence: u64) -> u64 {
    if sequence == u64::MAX {
        0
    } else {
        (sequence + 1) as u64
    }
}

/// Forgets the gesture: physical input, a display change or a reload. Advances
/// the shared request `sequence`, which invalidates every queued request, and
/// keeps `previous_now`, the focus seen now.
pub fn reset(state: &mut FocusState, sequence: &mut u64, previous_now: Option<FocusSnapshot>)
    ensures
        *final(state) == reset_state(*old(state), previous_now),
        *final(sequence) == next_sequence(*old(sequence)),
{
    *sequence = sequence.wrapping_add(1);
    cancel_native(state);
    state.origin = None;
    state.last_request = 0;
    state.released = false;
    state.deferred = None;
    state.previous = previous_now;
}

/// Whether a native contact report captures the focus anew: a finger goes down
/// and no native touch in progress has a finger down.
pub open spec fn spec_captures(s: FocusState, contact: bool) -> bool {
    contact && match s.native_capture {
        None => true,
        Some(c) => !c.contact,
    }
}

pub fn captures(state: &FocusState, contact: bool) -> (capture: bool)
    ensures
        capture == spec_captures(*state, contact),
{
    contact && match state.native_capture {
        None => true,
        Some(c) => !c.contact,
    }
}

/// The focus to capture: a nonactivating panel can clear editor focus while
/// leaving the original foreground window unchanged, so keep its last editor.
pub open spec fn with_kept_editor(current: Option<FocusSnapshot>, previous: Option<FocusSnapshot>) -> Option<FocusSnapshot> {
    match current {
        None => None,
        Some(c) => if c.control is None {
            Some(FocusSnapshot {
                window: c.window,
                control: match previous {
                    Some(p) if p.window == c.window => p.control,
                    _ => None,
                },
            })
        } else {
            Some(c)
        },
    }
}

/// The state after a native contact report, and whether it released the last
/// finger of a captured touch.
pub open spec fn native_contacted(
    s: FocusState,
    active: bool,
    contact: bool,
    current: Option<FocusSnapshot>,
    generation: u32,
    input_time: Option<u32>,
) -> (FocusState, bool) {
    if !active {
        (FocusState { native_capture: None, ..s }, false)
    } else {
        let capture = if spec_captures(s, contact) {
            Some(
                NativeCapture {
                    current: with_kept_editor(current, s.previous),
                    previous: s.previous,
                    generation,
                    input_time,
                    contact: true,
                },
            )
        } else {
            s.native_capture
        };
        match capture {
            None => (s, false),
            Some(c) => if !contact && !c.contact {
                (s, false)
            } else {
                (
                    FocusState {
                        native_capture: Some(NativeCapture { contact, input_time, ..c }),
                        ..s
                    },
                    c.contact && !contact,
                )
            },
        }
    }
}

/// Capture before Windows has necessarily updated the cursor or foreground.
/// Returns true only on a down-to-up transition, to schedule position settling.
/// `current` is the focus now, `generation` the configuration generation and
/// `input_time` the input clock. A new capture, made only while restoration is
/// active, advances the shared request `sequence`; otherwise it is unchanged.
pub fn native_contact(
    state: &mut FocusState,
    sequence: &mut u64,
    active: bool,
    contact: bool,
    current: Option<FocusSnapshot>,
    generation: u32,
    input_time: Option<u32>,
) -> (released: bool)
    ensures
        (*final(state), released) == native_contacted(
            *old(state),
            active,
            contact,
            current,
            generation,
            input_time,
        ),
        *final(sequence) == if active && spec_captures(*old(state), contact) {
            next_sequence(*old(sequence))
        } else {
            *old(sequence)
        },
{
    if !active {
        cancel_native(state);
        return false;
    }
    let mut capture = state.native_capture;
    if captures(state, contact) {
        *sequence = sequence.wrapping_add(1);
        let kept = match current {
            None => None,
            Some(c) => if c.control.is_none() {
                Some(
                    FocusSnapshot {
                        window: c.window,
                        control: match state.previous {
                            Some(p) if p.window == c.window => p.control,
                            _ => None,
                        },
                    },
                )
            } else {
                Some(c)
            },
        };
        capture = Some(
            NativeCapture {
                current: kept,
                previous: state.previous,
                generation,
                input_time,
                contact: true,
            },
        );
    }
    let mut capture = match capture {
        Some(c) => c,
        None => {
            return false;
        },
    };
    if !contact && !capture.contact {
        return false;
    }
    let released = capture.contact && !contact;
    capture.contact = contact;
    capture.input_time = input_time;
    state.native_capture = Some(capture);
    released
}

/// The capture that a settled release may act on: none unless the finger is up,
/// the service is active, and neither the configuration nor the input changed.
pub open spec fn settled_capture(s: FocusState, active: bool, generation: u32, input_time: Option<u32>) -> Option<NativeCapture> {
    match s.native_capture {
        None => None,
        Some(c) => if c.contact || !active || c.generation != generation || c.input_time != input_time {
            None
        } else {
            Some(c)
        },
    }
}

/// Called after a short cursor-settling interval, on the same message-pump
/// thread. Takes the native touch in progress and hands it back when it may be
/// acted on.
pub fn finish_native(state: &mut FocusState, active: bool, generation: u32, input_time: Option<u32>) -> (capture: Option<NativeCapture>)
    ensures
        *final(state) == (FocusState { native_capture: None, ..*old(state) }),
        capture == settled_capture(*old(state), active, generation, input_time),
{
    let capture = match state.native_capture {
        Some(c) => c,
        None => {
            return None;
        },
    };
    state.native_capture = None;
    if capture.contact || !active || capture.generation != generation || capture.input_time
        != input_time {
        return None;
    }
    Some(capture)
}

/// The window that a settled native release touched.
pub open spec fn spec_release_target(
    origin: Option<WindowIdentity>,
    hit: Option<WindowIdentity>,
    foreground: Option<WindowIdentity>,
) -> Option<WindowIdentity> {
    match foreground {
        Some(f) if origin is Some && Some(f) != origin => Some(f),
        _ => hit,
    }
}

/// A swipe may hide or reposition an AppBar before the settling timer runs, and
/// hit-testing then finds the desktop behind it. Prefer the active window when it
/// differs from the origin; a nonactivating touch still uses hit-testing.
pub fn native_release_target(
    origin: Option<WindowIdentity>,
    hit: Option<WindowIdentity>,
    foreground: Option<WindowIdentity>,
) -> (touched: Option<WindowIdentity>)
    ensures
        touched == spec_release_target(origin, hit, foreground),
{
    match foreground {
        Some(f) if origin.is_some() && Some(f) != origin => Some(f),
        _ => hit,
    }
}

/// Resolves a settled release: the origin that the capture gives when `hit` is
/// the window under the release point and `foreground` the active window. Returns
/// the touched window, for which the adapter then runs [`on_touch_window`] and
/// [`touch_released`] with a released finger.
pub fn settle_native(
    state: &mut FocusState,
    capture: NativeCapture,
    hit: Option<WindowIdentity>,
    foreground: Option<WindowIdentity>,
) -> (touched: Option<WindowIdentity>)
    ensures
        final(state).origin == focus_restore::spec_before_touch(capture.current, capture.previous, hit),
        final(state).last_request == 0,
        *final(state) == (FocusState {
            origin: final(state).origin,
            last_request: 0,
            ..*old(state)
        }),
        touched == spec_release_target(
            match final(state).origin {
                Some(o) => Some(o.window),
                None => None,
            },
            hit,
            foreground,
        ),
{
    let origin = before_touch(capture.current, capture.previous, hit);
    let origin_window = match origin {
        Some(o) => Some(o.window),
        None => None,
    };
    let touched = native_release_target(origin_window, hit, foreground);
    state.origin = origin;
    state.last_request = 0;
    touched
}

/// The state after the first part of a promoted touch message, before
/// [`touch_released`] advances the shared sequence: `completed` is the last request that
/// the worker finished and `snapshot` the focus now.
pub open spec fn touch_begun(
    s: FocusState,
    message: u32,
    touched: Option<WindowIdentity>,
    completed: u64,
    snapshot: Option<FocusSnapshot>,
) -> FocusState {
    let origin = if s.last_request != 0 && completed >= s.last_request { None } else { s.origin };
    let released = if message == BUTTON_DOWN { false } else if message == BUTTON_UP { true } else { s.released };
    let deferred = if message == BUTTON_DOWN { None } else { s.deferred };
    FocusState {
        origin: if origin is None { focus_restore::spec_before_touch(snapshot, s.previous, touched) } else { origin },
        last_request: 0,
        released,
        deferred,
        ..s
    }
}

/// Whether a promoted touch message needs the focus now to set the origin: the
/// worker finished the last request, or no origin was captured yet.
pub open spec fn needs_origin(s: FocusState, completed: u64) -> bool {
    (s.last_request != 0 && completed >= s.last_request) || s.origin is None
}

/// Tagged touch reports only. Capture before promotion when possible and retain
/// the editor throughout a burst. Resolve the touched window lazily: focus
/// restoration is optional, and disabled touch events should not hit-test
/// windows or query their owning processes. The focus now is read, after the
/// touched window, only when the origin needs it. Returns the touched window, or
/// none when restoration is not active and the adapter resets instead.
pub fn on_touch_window<F: FnOnce() -> Option<WindowIdentity>, G: FnOnce() -> Option<FocusSnapshot>>(
    state: &mut FocusState,
    active: bool,
    message: u32,
    resolve_touched: F,
    completed: u64,
    focus_now: G,
) -> (touched: Option<Option<WindowIdentity>>)
    requires
        active ==> call_requires(resolve_touched, ()) && call_requires(focus_now, ()),
    ensures
        !active ==> touched is None && *final(state) == *old(state),
        active ==> (touched matches Some(t) && call_ensures(resolve_touched, (), t) && if needs_origin(
            *old(state),
            completed,
        ) {
            exists|snapshot: Option<FocusSnapshot>|
                call_ensures(focus_now, (), snapshot) && *final(state) == touch_begun(
                    *old(state),
                    message,
                    t,
                    completed,
                    snapshot,
                )
        } else {
            *final(state) == touch_begun(*old(state), message, t, completed, None)
        }),
{
    if !active {
        return None;
    }
    let touched = resolve_touched();
    if state.last_request != 0 && completed >= state.last_request {
        state.origin = None;
    }
    state.last_request = 0;
    if message == BUTTON_DOWN {
        state.released = false;
        state.deferred = None;
    } else if message == BUTTON_UP {
        state.released = true;
    }
    if state.origin.is_none() {
        let snapshot = focus_now();
        state.origin = before_touch(snapshot, state.previous, touched);
        assert(*state == touch_begun(*old(state), message, touched, completed, snapshot));
    }
    Some(touched)
}

/// What the adapter does after a promoted touch message.
#[derive(Clone, Copy, Debug, PartialEq, Eq, Structural)]
pub enum TouchAction {
    /// The finger is still down: nothing to schedule.
    Wait,
    /// Hand the request to the worker; on a full queue, reset.
    Send(RestoreRequest),
    /// The request waits for the next physical mouse movement.
    Defer,
    /// Nothing can be restored: reset.
    Reset,
}

/// The state after the second part of a promoted touch message, with `sequence`
/// the shared sequence that the message advanced to, and the adapter's action.
/// `on_mouse_move` is the policy's choice, or none when the policy was busy.
pub open spec fn touch_released_step(
    s: FocusState,
    touched: Option<WindowIdentity>,
    input_time: Option<u32>,
    worker_ready: bool,
    generation: u32,
    sequence: u64,
    on_mouse_move: Option<bool>,
) -> (FocusState, TouchAction) {
    if !s.released {
        (s, TouchAction::Wait)
    } else if !worker_ready || s.origin is None || touched is None || input_time is None {
        (s, TouchAction::Reset)
    } else {
        let origin = s.origin->0;
        let request = RestoreRequest {
            origin: origin.window,
            control: origin.control,
            touched: touched->0,
            input_time: input_time->0,
            generation,
            sequence,
        };
        match on_mouse_move {
            None => (s, TouchAction::Reset),
            Some(true) => (
                FocusState { deferred_first: sequence, deferred: Some(request), ..s },
                TouchAction::Defer,
            ),
            Some(false) => (FocusState { last_request: sequence, ..s }, TouchAction::Send(request)),
        }
    }
}

/// The second part of a promoted touch message: advances the shared request
/// `sequence`, then makes, defers or drops the request for the released finger.
pub fn touch_released(
    state: &mut FocusState,
    sequence: &mut u64,
    touched: Option<WindowIdentity>,
    input_time: Option<u32>,
    worker_ready: bool,
    generation: u32,
    on_mouse_move: Option<bool>,
) -> (action: TouchAction)
    ensures
        *final(sequence) == next_sequence(*old(sequence)),
        (*final(state), action) == touch_released_step(
            *old(state),
            touched,
            input_time,
            worker_ready,
            generation,
            next_sequence(*old(sequence)),
            on_mouse_move,
        ),
{
    *sequence = sequence.wrapping_add(1);
    let sequence = *sequence;
    if !state.released {
        return TouchAction::Wait;
    }
    let (origin, t, time) = match (state.origin, touched, input_time) {
        (Some(origin), Some(t), Some(time)) => (origin, t, time),
        _ => {
            return TouchAction::Reset;
        },
    };
    if !worker_ready {
        return TouchAction::Reset;
    }
    let request = RestoreRequest {
        origin: origin.window,
        control: origin.control,
        touched: t,
        input_time: time,
        generation,
        sequence,
    };
    match on_mouse_move {
        None => TouchAction::Reset,
        Some(true) => {
            state.deferred_first = sequence;
            state.deferred = Some(request);
            TouchAction::Defer
        },
        Some(false) => {
            state.last_request = sequence;
            TouchAction::Send(request)
        },
    }
}

/// What the adapter does after physical mouse input.
#[derive(Clone, Copy, Debug, PartialEq, Eq, Structural)]
pub enum PhysicalAction {
    /// Input during a touch contact: nothing.
    Ignore,
    /// A click, a wheel, or a movement that cannot retry: reset.
    Reset,
    /// A movement retries the deferred request with the current input time; the
    /// adapter runs [`retry_deferred`], which advances the shared sequence.
    Retry(RestoreRequest),
}

/// The adapter's action after physical input. `resolved` is the last request
/// that the worker resolved, `foreground` the active window and `input_time`
/// the input clock.
pub open spec fn physical_action(
    s: FocusState,
    is_move: bool,
    in_contact: bool,
    active: bool,
    generation: u32,
    resolved: u64,
    foreground: Option<WindowIdentity>,
    input_time: Option<u32>,
) -> PhysicalAction {
    if in_contact {
        PhysicalAction::Ignore
    } else if !is_move {
        PhysicalAction::Reset
    } else {
        match s.deferred {
            None => PhysicalAction::Reset,
            Some(r) => if !active || r.generation != generation || (s.deferred_first != 0
                && resolved >= s.deferred_first) || !(foreground == Some(r.touched) || foreground
                == Some(r.origin)) {
                PhysicalAction::Reset
            } else {
                match input_time {
                    None => PhysicalAction::Reset,
                    Some(t) => PhysicalAction::Retry(RestoreRequest { input_time: t, ..r }),
                }
            },
        }
    }
}

/// Physical mouse input. A click or wheel accepts the current position and
/// cancels the gesture; a movement restores a deferred request.
pub fn on_physical_input(
    state: &FocusState,
    is_move: bool,
    in_contact: bool,
    active: bool,
    generation: u32,
    resolved: u64,
    foreground: Option<WindowIdentity>,
    input_time: Option<u32>,
) -> (action: PhysicalAction)
    ensures
        action == physical_action(
            *state,
            is_move,
            in_contact,
            active,
            generation,
            resolved,
            foreground,
            input_time,
        ),
{
    if in_contact {
        return PhysicalAction::Ignore;
    }
    if !is_move {
        return PhysicalAction::Reset;
    }
    let request = match state.deferred {
        Some(r) => r,
        None => {
            return PhysicalAction::Reset;
        },
    };
    if !active || request.generation != generation || (state.deferred_first != 0 && resolved
        >= state.deferred_first) || !(foreground == Some(request.touched) || foreground == Some(
        request.origin,
    )) {
        return PhysicalAction::Reset;
    }
    match input_time {
        None => PhysicalAction::Reset,
        Some(t) => PhysicalAction::Retry(RestoreRequest { input_time: t, ..request }),
    }
}

/// Advances the shared request `sequence`, records the retried request under
/// the new number, and returns the request to hand to the worker.
pub fn retry_deferred(state: &mut FocusState, sequence: &mut u64, request: RestoreRequest) -> (sent: RestoreRequest)
    ensures
        *final(sequence) == next_sequence(*old(sequence)),
        sent == (RestoreRequest { sequence: next_sequence(*old(sequence)), ..request }),
        *final(state) == (FocusState {
            deferred: Some(sent),
            last_request: next_sequence(*old(sequence)),
            ..*old(state)
        }),
{
    *sequence = sequence.wrapping_add(1);
    let sent = RestoreRequest { sequence: *sequence, ..request };
    state.deferred = Some(sent);
    state.last_request = *sequence;
    sent
}

/// How one restoration attempt of the worker ended.
#[derive(Clone, Copy, Debug, PartialEq, Eq, Structural)]
pub enum RestoreOutcome {
    /// The state, the input or the foreground changed before the attempt.
    SkippedChanged,
    /// The touched app's focus rule refuses it, or the touched window is gone.
    SkippedAppRule,
    /// The original window is hidden, minimized or unresponsive.
    SkippedWindow,
    /// A modifier or mouse button is held.
    SkippedKeysHeld,
    /// An app is in a menu, holds the capture, or runs a move loop.
    SkippedBusy,
    /// The request became stale while the input queues were attached.
    SkippedDuringActivation,
    /// Windows refused to activate the original window.
    RefusedForeground,
    /// The original editor no longer exists.
    EditorGone,
    /// The editor belongs to another input thread.
    EditorOtherThread,
    /// Input arrived after activation.
    SkippedAfterActivation,
    /// The window and its editor have focus again.
    Restored,
    /// The window is active but the editor refused focus.
    EditorRefused,
    /// The window is active; no editor was captured.
    RestoredWindow,
}

/// Whether an outcome settles the whole gesture. Only changing input needs a
/// retry on the next physical move; a rule refusal or completed restoration
/// resolves it, including newer movement requests queued during the attempt.
pub open spec fn spec_resolves_gesture(outcome: RestoreOutcome) -> bool {
    !(outcome is SkippedChanged || outcome is SkippedDuringActivation
        || outcome is SkippedAfterActivation)
}

impl RestoreOutcome {
    pub fn resolves_gesture(&self) -> (resolves: bool)
        ensures
            resolves == spec_resolves_gesture(*self),
    {
        match self {
            RestoreOutcome::SkippedChanged => false,
            RestoreOutcome::SkippedDuringActivation => false,
            RestoreOutcome::SkippedAfterActivation => false,
            _ => true,
        }
    }
}

/// The checks of one restoration attempt, in the order the worker makes them.
/// Before each check the adapter performs what the check observes: it attaches
/// the input queues before `StillEligible`, activates the original window
/// before `Activated`, and focuses the editor before `EditorFocused`.
#[derive(Clone, Copy, Debug, PartialEq, Eq, Structural)]
pub enum RestoreStep {
    /// The request still describes the present situation.
    Eligible,
    /// The touched window is the same window and its app's rule allows a restore.
    TouchedApp,
    /// The original window is visible, not minimized, and neither it nor the
    /// foreground window hangs.
    TargetUsable,
    /// No modifier or mouse button is held.
    InputFree,
    /// Neither thread is in a menu, a move loop, or holds the capture.
    ThreadsIdle,
    /// The request is still current after attaching the input queues.
    StillEligible,
    /// The original window is in front.
    Activated,
    /// The captured editor still exists inside the original window.
    EditorPresent,
    /// The editor belongs to the original window's input thread.
    EditorThread,
    /// No input arrived after activation.
    EligibleBeforeFocus,
    /// The editor has focus.
    EditorFocused,
}

/// Where a restoration attempt goes after a check.
#[derive(Clone, Copy, Debug, PartialEq, Eq, Structural)]
pub enum RestoreProgress {
    Next(RestoreStep),
    Done(RestoreOutcome),
}

/// The attempt after check `step` passed or failed; `has_editor` tells whether
/// an editor was captured with the original window.
pub open spec fn restore_advanced(step: RestoreStep, passed: bool, has_editor: bool) -> RestoreProgress {
    match step {
        RestoreStep::Eligible => if passed {
            RestoreProgress::Next(RestoreStep::TouchedApp)
        } else {
            RestoreProgress::Done(RestoreOutcome::SkippedChanged)
        },
        RestoreStep::TouchedApp => if passed {
            RestoreProgress::Next(RestoreStep::TargetUsable)
        } else {
            RestoreProgress::Done(RestoreOutcome::SkippedAppRule)
        },
        RestoreStep::TargetUsable => if passed {
            RestoreProgress::Next(RestoreStep::InputFree)
        } else {
            RestoreProgress::Done(RestoreOutcome::SkippedWindow)
        },
        RestoreStep::InputFree => if passed {
            RestoreProgress::Next(RestoreStep::ThreadsIdle)
        } else {
            RestoreProgress::Done(RestoreOutcome::SkippedKeysHeld)
        },
        RestoreStep::ThreadsIdle => if passed {
            RestoreProgress::Next(RestoreStep::StillEligible)
        } else {
            RestoreProgress::Done(RestoreOutcome::SkippedBusy)
        },
        RestoreStep::StillEligible => if passed {
            RestoreProgress::Next(RestoreStep::Activated)
        } else {
            RestoreProgress::Done(RestoreOutcome::SkippedDuringActivation)
        },
        RestoreStep::Activated => if !passed {
            RestoreProgress::Done(RestoreOutcome::RefusedForeground)
        } else if has_editor {
            RestoreProgress::Next(RestoreStep::EditorPresent)
        } else {
            RestoreProgress::Done(RestoreOutcome::RestoredWindow)
        },
        RestoreStep::EditorPresent => if passed {
            RestoreProgress::Next(RestoreStep::EditorThread)
        } else {
            RestoreProgress::Done(RestoreOutcome::EditorGone)
        },
        RestoreStep::EditorThread => if passed {
            RestoreProgress::Next(RestoreStep::EligibleBeforeFocus)
        } else {
            RestoreProgress::Done(RestoreOutcome::EditorOtherThread)
        },
        RestoreStep::EligibleBeforeFocus => if passed {
            RestoreProgress::Next(RestoreStep::EditorFocused)
        } else {
            RestoreProgress::Done(RestoreOutcome::SkippedAfterActivation)
        },
        RestoreStep::EditorFocused => if passed {
            RestoreProgress::Done(RestoreOutcome::Restored)
        } else {
            RestoreProgress::Done(RestoreOutcome::EditorRefused)
        },
    }
}

pub fn advance_restore(step: RestoreStep, passed: bool, has_editor: bool) -> (progress: RestoreProgress)
    ensures
        progress == restore_advanced(step, passed, has_editor),
{
    match step {
        RestoreStep::Eligible => if passed {
            RestoreProgress::Next(RestoreStep::TouchedApp)
        } else {
            RestoreProgress::Done(RestoreOutcome::SkippedChanged)
        },
        RestoreStep::TouchedApp => if passed {
            RestoreProgress::Next(RestoreStep::TargetUsable)
        } else {
            RestoreProgress::Done(RestoreOutcome::SkippedAppRule)
        },
        RestoreStep::TargetUsable => if passed {
            RestoreProgress::Next(RestoreStep::InputFree)
        } else {
            RestoreProgress::Done(RestoreOutcome::SkippedWindow)
        },
        RestoreStep::InputFree => if passed {
            RestoreProgress::Next(RestoreStep::ThreadsIdle)
        } else {
            RestoreProgress::Done(RestoreOutcome::SkippedKeysHeld)
        },
        RestoreStep::ThreadsIdle => if passed {
            RestoreProgress::Next(RestoreStep::StillEligible)
        } else {
            RestoreProgress::Done(RestoreOutcome::SkippedBusy)
        },
        RestoreStep::StillEligible => if passed {
            RestoreProgress::Next(RestoreStep::Activated)
        } else {
            RestoreProgress::Done(RestoreOutcome::SkippedDuringActivation)
        },
        RestoreStep::Activated => if !passed {
            RestoreProgress::Done(RestoreOutcome::RefusedForeground)
        } else if has_editor {
            RestoreProgress::Next(RestoreStep::EditorPresent)
        } else {
            RestoreProgress::Done(RestoreOutcome::RestoredWindow)
        },
        RestoreStep::EditorPresent => if passed {
            RestoreProgress::Next(RestoreStep::EditorThread)
        } else {
            RestoreProgress::Done(RestoreOutcome::EditorGone)
        },
        RestoreStep::EditorThread => if passed {
            RestoreProgress::Next(RestoreStep::EligibleBeforeFocus)
        } else {
            RestoreProgress::Done(RestoreOutcome::EditorOtherThread)
        },
        RestoreStep::EligibleBeforeFocus => if passed {
            RestoreProgress::Next(RestoreStep::EditorFocused)
        } else {
            RestoreProgress::Done(RestoreOutcome::SkippedAfterActivation)
        },
        RestoreStep::EditorFocused => if passed {
            RestoreProgress::Done(RestoreOutcome::Restored)
        } else {
            RestoreProgress::Done(RestoreOutcome::EditorRefused)
        },
    }
}

/// The outcome of an attempt whose checks, from the first, passed as `results`
/// says, as far as they were made.
pub open spec fn restore_run(step: RestoreStep, results: Seq<bool>, has_editor: bool) -> Option<RestoreOutcome>
    decreases results.len(),
{
    if results.len() == 0 {
        None
    } else {
        match restore_advanced(step, results[0], has_editor) {
            RestoreProgress::Done(o) => Some(o),
            RestoreProgress::Next(s) => restore_run(s, results.drop_first(), has_editor),
        }
    }
}

/// The focus is moved only when every earlier check passed: an attempt reports
/// a restoration only when the request was eligible at all three points, the
/// touched app's rule allowed it and the window was activated.
pub proof fn restored_only_after_every_check(results: Seq<bool>, has_editor: bool)
    ensures
        restore_run(RestoreStep::Eligible, results, has_editor) == Some(RestoreOutcome::Restored) ==> {
            &&& has_editor
            &&& results.len() >= 11
            &&& forall|i: int| 0 <= i < 11 ==> #[trigger] results[i]
        },
        restore_run(RestoreStep::Eligible, results, has_editor) == Some(RestoreOutcome::RestoredWindow) ==> {
            &&& !has_editor
            &&& results.len() >= 7
            &&& forall|i: int| 0 <= i < 7 ==> #[trigger] results[i]
        },
{
    reveal_with_fuel(restore_run, 12);
}

/// The GUI thread states in which attaching input queues would disturb the user:
/// `GUI_INMOVESIZE`, `GUI_INMENUMODE`, `GUI_SYSTEMMENUMODE` and `GUI_POPUPMENUMODE`.
pub const BUSY_FLAGS: u32 = 0x1e;

/// A thread whose GUI state is unknown, or that is in a menu, a move loop or
/// holds the mouse capture, is busy.
pub open spec fn spec_thread_busy(flags: Option<u32>, has_capture: bool) -> bool {
    match flags {
        None => true,
        Some(f) => f & BUSY_FLAGS != 0 || has_capture,
    }
}

pub fn thread_busy(flags: Option<u32>, has_capture: bool) -> (busy: bool)
    ensures
        busy == spec_thread_busy(flags, has_capture),
{
    match flags {
        None => true,
        Some(f) => f & BUSY_FLAGS != 0 || has_capture,
    }
}

/// Whether the touched app allows a restoration: the touched window is still the
/// same window (`touched_now` is its identity now) and its app's rule restores.
/// The executable path is looked up, through `exe_path`, only for that window.
pub fn touched_app_allows<F: FnOnce() -> Option<String>>(
    request: &RestoreRequest,
    touched_now: Option<WindowIdentity>,
    policy: &TouchPolicy,
    exe_path: F,
) -> (allows: bool)
    requires
        call_requires(exe_path, ()),
    ensures
        touched_now != Some(request.touched) ==> !allows,
        touched_now == Some(request.touched) ==> exists|path: Option<String>|
            call_ensures(exe_path, (), path) && allows == restores(
                texts(policy.keep_apps@),
                texts(policy.restore_apps@),
                match path {
                    Some(p) => Some(p@),
                    None => None,
                },
            ),
{
    if touched_now != Some(request.touched) {
        return false;
    }
    match exe_path() {
        Some(path) => policy.restores_app(Some(path.as_str())),
        None => policy.restores_app(None),
    }
}

/// Whether the captured editor can be focused from the original window's input
/// thread: an editor of another thread is left alone.
pub fn editor_on_origin_thread(request: &RestoreRequest) -> (same: bool)
    ensures
        same == (request.control matches Some(c) && c.thread == request.origin.thread),
{
    match request.control {
        Some(c) => c.thread == request.origin.thread,
        None => false,
    }
}

/// The delay before a restoration: none when returning to the mouse is the
/// trigger, since that is an explicit request to restore now.
pub open spec fn spec_worker_delay(on_mouse_move: bool, delay_ms: u64) -> u64 {
    if on_mouse_move {
        0
    } else {
        delay_ms
    }
}

pub fn worker_delay(policy: &TouchPolicy) -> (delay: u64)
    ensures
        delay == spec_worker_delay(policy.on_mouse_move, policy.delay_ms),
{
    if policy.on_mouse_move {
        0
    } else {
        policy.delay_ms
    }
}

/// A queued request is superseded once the shared sequence moved past it: a
/// newer touch, movement or reset happened after it was made.
pub fn superseded(request: &RestoreRequest, sequence: u64) -> (stale: bool)
    ensures
        stale == (request.sequence != sequence),
{
    request.sequence != sequence
}

/// The worker keeps waiting while delay remains and no newer gesture superseded
/// the request, so stale work never holds up a newer gesture.
pub fn keeps_waiting(request: &RestoreRequest, remaining: u64, sequence: u64) -> (wait: bool)
    ensures
        wait == (remaining > 0 && request.sequence == sequence),
{
    remaining > 0 && request.sequence == sequence
}

/// The worker sleeps in slices of at most this many milliseconds, so that a
/// long configured delay cannot hold up a newer gesture behind stale work.
pub const DELAY_SLICE_MS: u64 = 10;

pub fn delay_slice(remaining: u64) -> (slice: u64)
    ensures
        slice == if remaining < DELAY_SLICE_MS { remaining } else { DELAY_SLICE_MS },
{
    if remaining < DELAY_SLICE_MS {
        remaining
    } else {
        DELAY_SLICE_MS
    }
}

/// A native release is reported only on a down-to-up transition of a captured
/// touch while restoration is active, and a duplicate release cannot re-arm it.
pub proof fn native_release_fires_once(
    s: FocusState,
    active: bool,
    contact: bool,
    current: Option<FocusSnapshot>,
    generation: u32,
    input_time: Option<u32>,
    later_current: Option<FocusSnapshot>,
    later_generation: u32,
    later_input_time: Option<u32>,
)
    ensures
        native_contacted(s, active, contact, current, generation, input_time).1 ==> {
            &&& active
            &&& !contact
            &&& s.native_capture matches Some(c) && c.contact
        },
        native_contacted(
            native_contacted(s, active, contact, current, generation, input_time).0,
            active,
            false,
            later_current,
            later_generation,
            later_input_time,
        ).1 ==> contact,
{
}

/// A settled release acts only on a capture whose finger is up and whose
/// configuration generation and input time are unchanged, and never twice.
pub proof fn settled_release_is_current(s: FocusState, active: bool, generation: u32, input_time: Option<u32>)
    ensures
        settled_capture(s, active, generation, input_time) matches Some(c) ==> {
            &&& active
            &&& !c.contact
            &&& c.generation == generation
            &&& c.input_time == input_time
        },
        settled_capture(FocusState { native_capture: None, ..s }, active, generation, input_time) is None,
{
}

/// A nonactivating touch uses hit-testing, never the original window: the
/// target is the origin only when the release point hit the origin.
pub proof fn release_target_is_not_origin(
    origin: Option<WindowIdentity>,
    hit: Option<WindowIdentity>,
    foreground: Option<WindowIdentity>,
)
    ensures
        origin is Some && spec_release_target(origin, hit, foreground) == origin ==> hit == origin,
        origin is None ==> spec_release_target(origin, hit, foreground) == hit,
{
}

/// A native finger-down while restoration is active captures the focus now,
/// with the configuration generation and input time of that moment. A
/// nonactivating panel may have cleared the editor focus of an unchanged
/// foreground window: then the editor remembered from the last physical input
/// in that same window is kept, and no editor of another window is ever taken.
pub proof fn native_capture_keeps_editor(
    s: FocusState,
    contact: bool,
    current: Option<FocusSnapshot>,
    generation: u32,
    input_time: Option<u32>,
)
    requires
        spec_captures(s, contact),
    ensures
        ({
            let after = native_contacted(s, true, contact, current, generation, input_time).0;
            &&& after.native_capture is Some
            &&& after.native_capture->0.contact
            &&& after.native_capture->0.generation == generation
            &&& after.native_capture->0.input_time == input_time
            &&& after.native_capture->0.previous == s.previous
            &&& current is None ==> after.native_capture->0.current is None
            &&& current is Some ==> {
                let kept = after.native_capture->0.current;
                &&& kept is Some
                &&& kept->0.window == current->0.window
                &&& current->0.control is Some ==> kept->0.control == current->0.control
                &&& (current->0.control is None && s.previous is Some && s.previous->0.window
                    == current->0.window) ==> kept->0.control == s.previous->0.control
                &&& (current->0.control is None && !(s.previous is Some && s.previous->0.window
                    == current->0.window)) ==> kept->0.control is None
            }
        }),
{
}

/// The touched window of a settled native release: once an origin was captured,
/// a window other than the origin that is active at release is the touched
/// window, whatever the release point hit-tests to (an AppBar panel that a
/// swipe activated and hid again). Otherwise the window under the release
/// point is the touched window.
pub proof fn active_window_is_touched_window(
    origin: Option<WindowIdentity>,
    hit: Option<WindowIdentity>,
    foreground: Option<WindowIdentity>,
)
    ensures
        (origin is Some && foreground is Some && foreground != origin) ==> spec_release_target(
            origin,
            hit,
            foreground,
        ) == foreground,
        (origin is None || foreground is None || foreground == origin) ==> spec_release_target(
            origin,
            hit,
            foreground,
        ) == hit,
{
}

/// Whether a focus is known and lies outside the touched window.
pub open spec fn outside(focus: Option<FocusSnapshot>, touched: Option<WindowIdentity>) -> bool {
    focus is Some && Some(focus->0.window) != touched
}

/// What a promoted touch message does to the gesture state, over every input.
/// When the worker finished the last request or no origin is held, a new origin
/// is captured: the focus now when it lies outside the touched window; else the
/// focus remembered from the last physical input when that lies outside it
/// (touch activation can precede the first promoted report); else the focus
/// now. Otherwise the held origin stays. A finger-down clears the release and
/// any deferred request, a finger-up marks the release, other messages keep
/// both; the outstanding request is forgotten and nothing else changes.
pub proof fn promoted_touch_captures_origin(
    s: FocusState,
    message: u32,
    touched: Option<WindowIdentity>,
    completed: u64,
    snapshot: Option<FocusSnapshot>,
)
    ensures
        ({
            let t = touch_begun(s, message, touched, completed, snapshot);
            let fresh = (s.last_request != 0 && completed >= s.last_request) || s.origin is None;
            &&& !fresh ==> t.origin == s.origin
            &&& (fresh && outside(snapshot, touched)) ==> t.origin == snapshot
            &&& (fresh && !outside(snapshot, touched) && outside(s.previous, touched)) ==> t.origin
                == s.previous
            &&& (fresh && !outside(snapshot, touched) && !outside(s.previous, touched)) ==> t.origin
                == snapshot
            &&& message == BUTTON_DOWN ==> !t.released && t.deferred is None
            &&& message == BUTTON_UP ==> t.released && t.deferred == s.deferred
            &&& (message != BUTTON_DOWN && message != BUTTON_UP) ==> t.released == s.released
                && t.deferred == s.deferred
            &&& t.last_request == 0
            &&& t.native_capture == s.native_capture
            &&& t.previous == s.previous
            &&& t.deferred_first == s.deferred_first
        }),
{
}

/// A reset leaves nothing pending: no native touch, no origin, no deferred
/// request, no release and no outstanding request.
pub proof fn reset_leaves_nothing_pending(s: FocusState, previous_now: Option<FocusSnapshot>)
    ensures
        reset_state(s, previous_now).native_capture is None,
        reset_state(s, previous_now).origin is None,
        reset_state(s, previous_now).deferred is None,
        !reset_state(s, previous_now).released,
        reset_state(s, previous_now).last_request == 0,
        reset_state(s, previous_now).previous == previous_now,
{
}

/// A reset invalidates every request made before it: a request that carries the
/// sequence number current before the reset never passes the restore check
/// against the sequence after it.
pub proof fn reset_invalidates_queued_requests(
    r: RestoreRequest,
    sequence: u64,
    origin_now: Option<WindowIdentity>,
    foreground_now: Option<WindowIdentity>,
    last_input: Option<u32>,
    active: bool,
    generation: u32,
)
    requires
        r.sequence == sequence,
    ensures
        !r.spec_should_restore(
            origin_now,
            foreground_now,
            last_input,
            active,
            generation,
            next_sequence(sequence),
        ),
{
}

/// Physical input: during a touch contact it is ignored; a click or wheel
/// accepts the current position and cancels the gesture; only a movement retries
/// a deferred request, and only while the touched window or the original is in
/// front.
pub proof fn physical_input_cancels_or_retries(
    s: FocusState,
    is_move: bool,
    in_contact: bool,
    active: bool,
    generation: u32,
    resolved: u64,
    foreground: Option<WindowIdentity>,
    input_time: Option<u32>,
)
    ensures
        in_contact ==> physical_action(s, is_move, in_contact, active, generation, resolved, foreground, input_time)
            == PhysicalAction::Ignore,
        !in_contact && !is_move ==> physical_action(
            s,
            is_move,
            in_contact,
            active,
            generation,
            resolved,
            foreground,
            input_time,
        ) == PhysicalAction::Reset,
        physical_action(s, is_move, in_contact, active, generation, resolved, foreground, input_time) matches PhysicalAction::Retry(r) ==> {
            &&& is_move && active
            &&& s.deferred matches Some(d) && r == (RestoreRequest { input_time: r.input_time, ..d })
            &&& input_time == Some(r.input_time)
            &&& (foreground == Some(r.touched) || foreground == Some(r.origin))
            &&& r.generation == generation
        },
{
}

/// A finger-down starts a new gesture: nothing is released or deferred, and the
/// request waits for the finger to come up.
pub proof fn finger_down_waits_for_release(
    s: FocusState,
    touched: Option<WindowIdentity>,
    completed: u64,
    snapshot: Option<FocusSnapshot>,
    input_time: Option<u32>,
    worker_ready: bool,
    generation: u32,
    sequence: u64,
    on_mouse_move: Option<bool>,
)
    ensures
        !touch_begun(s, BUTTON_DOWN, touched, completed, snapshot).released,
        touch_begun(s, BUTTON_DOWN, touched, completed, snapshot).deferred is None,
        touch_released_step(
            touch_begun(s, BUTTON_DOWN, touched, completed, snapshot),
            touched,
            input_time,
            worker_ready,
            generation,
            sequence,
            on_mouse_move,
        ).1 == TouchAction::Wait,
        touch_begun(s, BUTTON_UP, touched, completed, snapshot).released,
{
}

} // verus!
