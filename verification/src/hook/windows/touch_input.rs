//! Routing of promoted touch and pen messages, native touch reports and
//! physical mouse input to the pointer state machines. Touch keeps the mouse
//! position; the first physical movement returns the pointer, and a physical
//! click or wheel accepts its current position instead. The adapter reads the
//! messages, the cursor and the policy, and moves the cursor.
use vstd::prelude::*;
use crate::hook::touch::{
    native_observed, native_promoted, native_target, resumed, touched, NativeTouchResume,
    NativeTouchView, Point, TouchResume, TouchResumeView,
};
use crate::hook::touch_policy::{gesture_step, GestureView, TouchGesture};

verus! {

/// What a [`TouchInput`] holds.
pub struct TouchInputView {
    pub resume: TouchResumeView,
    pub native: NativeTouchView,
    pub gesture: GestureView,
    pub cursor: Option<Point>,
}

/// The pointer state of the hook thread: the promoted-touch resume, the native
/// touch fallback, the gesture's policy decision and the last physical mouse
/// position.
#[derive(Clone, Copy)]
pub struct TouchInput {
    resume: TouchResume,
    native: NativeTouchResume,
    gesture: TouchGesture,
    cursor: Option<Point>,
}

impl View for TouchInput {
    type V = TouchInputView;

    closed spec fn view(&self) -> TouchInputView {
        TouchInputView {
            resume: self.resume@,
            native: self.native@,
            gesture: self.gesture@,
            cursor: self.cursor,
        }
    }
}

/// The state of a hook thread that has seen no input.
pub open spec fn fresh_input() -> TouchInputView {
    TouchInputView {
        resume: TouchResumeView { saved: None, contact: false },
        native: NativeTouchView { saved: None, bypass: false, promoted: false },
        gesture: GestureView { bypass: false, contact: false },
        cursor: None,
    }
}

/// Physical mouse input (`is_move` for a movement, otherwise a click or wheel):
/// the state after it and the position to return the pointer to. During a touch
/// contact nothing changes. Otherwise a movement returns the pointer to the
/// position saved before the promoted touch, or else to the native touch
/// anchor; a click or wheel returns nothing and forgets the saved position.
/// Either way the native burst ends.
pub open spec fn physical_step(v: TouchInputView, is_move: bool) -> (TouchInputView, Option<Point>) {
    if v.resume.contact {
        (v, None)
    } else {
        let (promoted, resume) = if is_move {
            resumed(v.resume)
        } else {
            (None, TouchResumeView { saved: None, contact: false })
        };
        let target = if promoted is Some {
            promoted
        } else if is_move {
            native_target(v.native, true)
        } else {
            None
        };
        (
            TouchInputView {
                resume,
                native: NativeTouchView { saved: None, bypass: false, promoted: false },
                ..v
            },
            target,
        )
    }
}

/// A mouse message promoted from touch or pen, at a position the policy allows
/// (`allowed`) or not, going down, up, or neither (a move or hover): the state
/// after it and whether focus restoration handles it. Windows handles this
/// touch, so the native fallback stands down; an accepted message saves the
/// physical position before the touch; only an accepted finger-down or
/// finger-up reaches focus restoration, so hover never restores typing focus.
pub open spec fn promoted_step(v: TouchInputView, allowed: bool, down: bool, up: bool) -> (TouchInputView, bool) {
    let (gesture, accepted) = gesture_step(v.gesture, allowed, down, up);
    (
        TouchInputView {
            native: native_promoted(v.native),
            gesture,
            resume: if accepted { touched(v.resume, v.cursor, down, up) } else { v.resume },
            ..v
        },
        accepted && (down || up),
    )
}

/// A native touch report while the cursor reads `cursor`: the native fallback
/// anchors at the last physical mouse position, or at the cursor when none was
/// seen.
pub open spec fn native_report_step(v: TouchInputView, cursor: Option<Point>, allowed: bool) -> TouchInputView {
    let anchor = if v.cursor is Some { v.cursor } else { cursor };
    TouchInputView { native: native_observed(v.native, anchor, allowed), ..v }
}

impl TouchInput {
    pub fn new() -> (input: Self)
        ensures
            input@ == fresh_input(),
    {
        TouchInput {
            resume: TouchResume::new(),
            native: NativeTouchResume::new(),
            gesture: TouchGesture::new(),
            cursor: None,
        }
    }

    /// Forgets everything: a display change, a reload or a lost hook.
    pub fn reset(&mut self)
        ensures
            final(self)@ == fresh_input(),
    {
        *self = TouchInput::new();
    }

    /// Whether a finger of a promoted touch is down.
    pub fn in_contact(&self) -> (contact: bool)
        ensures
            contact == self@.resume.contact,
    {
        self.resume.in_contact()
    }

    /// Records the position of physical mouse input that needs no handling.
    pub fn record_position(&mut self, position: Point)
        ensures
            final(self)@ == (TouchInputView { cursor: Some(position), ..old(self)@ }),
    {
        self.cursor = Some(position);
    }

    /// Physical mouse input; returns where to move the pointer back to, if anywhere.
    pub fn physical(&mut self, is_move: bool) -> (target: Option<Point>)
        ensures
            (final(self)@, target) == physical_step(old(self)@, is_move),
    {
        if self.resume.in_contact() {
            return None;
        }
        let promoted = if is_move {
            self.resume.resume()
        } else {
            self.resume.reset();
            None
        };
        let target = if promoted.is_some() {
            promoted
        } else if is_move {
            self.native.target(true)
        } else {
            None
        };
        self.native = NativeTouchResume::new();
        target
    }

    /// A promoted touch or pen message; returns whether focus restoration
    /// handles it.
    pub fn promoted(&mut self, allowed: bool, down: bool, up: bool) -> (focus: bool)
        ensures
            (final(self)@, focus) == promoted_step(old(self)@, allowed, down, up),
    {
        self.native.promoted();
        let accepted = self.gesture.accepts(allowed, down, up);
        if accepted {
            self.resume.touch(self.cursor, down, up);
        }
        accepted && (down || up)
    }

    /// A native touch report while the cursor reads `cursor`.
    pub fn native_report(&mut self, cursor: Option<Point>, allowed: bool)
        ensures
            final(self)@ == native_report_step(old(self)@, cursor, allowed),
    {
        let anchor = if self.cursor.is_some() { self.cursor } else { cursor };
        self.native.observe(anchor, allowed);
    }
}

/// Hover does not restore typing focus: a promoted message that neither goes
/// down nor up never reaches focus restoration.
pub proof fn hover_never_reaches_focus(v: TouchInputView, allowed: bool)
    ensures
        !promoted_step(v, allowed, false, false).1,
{
}

/// The first physical movement after a touch returns the pointer to where the
/// mouse was before it, and only once: the next movement returns nothing.
pub proof fn first_move_returns_pointer(v: TouchInputView, p: Point)
    requires
        !v.resume.contact,
        v.resume.saved == Some(p),
    ensures
        physical_step(v, true).1 == Some(p),
        physical_step(physical_step(v, true).0, true).1 is None,
{
}

/// A physical click or wheel accepts the current position: it returns nothing,
/// and no later movement returns the pointer to a position from before it.
pub proof fn click_accepts_current_position(v: TouchInputView)
    requires
        !v.resume.contact,
    ensures
        physical_step(v, false).1 is None,
        physical_step(physical_step(v, false).0, true).1 is None,
{
}

/// The position saved before a promoted touch wins over the native anchor.
pub proof fn promoted_position_wins(v: TouchInputView)
    requires
        !v.resume.contact,
        v.resume.saved is Some,
    ensures
        physical_step(v, true).1 == v.resume.saved,
{
}

/// Physical input during a touch contact changes nothing and moves nothing.
pub proof fn contact_ignores_physical_input(v: TouchInputView, is_move: bool)
    requires
        v.resume.contact,
    ensures
        physical_step(v, is_move) == (v, None::<Point>),
{
}

} // verus!
