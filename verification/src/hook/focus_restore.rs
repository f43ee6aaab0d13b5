//! Decision rules for a delayed, best-effort foreground restoration.
use vstd::prelude::*;

verus! {

/// A window handle together with its owning process and thread, so that a
/// reused handle is never mistaken for the original window.
#[derive(Clone, Copy, Debug, PartialEq, Eq, Structural)]
pub struct WindowIdentity {
    pub handle: isize,
    pub process: u32,
    pub thread: u32,
}

/// The foreground window and the focused control inside it.
#[derive(Clone, Copy, Debug, PartialEq, Eq, Structural)]
pub struct FocusSnapshot {
    pub window: WindowIdentity,
    pub control: Option<WindowIdentity>,
}

/// The snapshot chosen as the origin of a touch.
pub open spec fn spec_before_touch(
    current: Option<FocusSnapshot>,
    previous: Option<FocusSnapshot>,
    touched: Option<WindowIdentity>,
) -> Option<FocusSnapshot> {
    match current {
        Some(c) if Some(c.window) != touched => Some(c),
        _ => match previous {
            Some(p) if Some(p.window) != touched => Some(p),
            _ => current,
        },
    }
}

/// Touch activation can precede the first promoted mouse report. In that case
/// use the focus captured during the preceding physical mouse activity.
pub fn before_touch(
    current: Option<FocusSnapshot>,
    previous: Option<FocusSnapshot>,
    touched: Option<WindowIdentity>,
) -> (origin: Option<FocusSnapshot>)
    ensures
        origin == spec_before_touch(current, previous, touched),
{
    match current {
        Some(c) if Some(c.window) != touched => Some(c),
        _ => match previous {
            Some(p) if Some(p.window) != touched => Some(p),
            _ => current,
        },
    }
}

/// A scheduled return to the window that had focus before a touch.
#[derive(Clone, Copy, Debug, PartialEq, Eq, Structural)]
pub struct RestoreRequest {
    pub origin: WindowIdentity,
    pub control: Option<WindowIdentity>,
    pub touched: WindowIdentity,
    pub input_time: u32,
    pub generation: u32,
    pub sequence: u64,
}

impl RestoreRequest {
    /// The request still describes the present situation: the service is active,
    /// no reload or newer touch superseded it, the original window is the same
    /// window, the foreground is the touched window or the original, and the touch
    /// is still the last user input.
    pub open spec fn spec_should_restore(
        self,
        origin_now: Option<WindowIdentity>,
        foreground_now: Option<WindowIdentity>,
        last_input: Option<u32>,
        active: bool,
        generation: u32,
        sequence: u64,
    ) -> bool {
        &&& active
        &&& generation == self.generation
        &&& sequence == self.sequence
        &&& self.origin != self.touched
        &&& origin_now == Some(self.origin)
        &&& (foreground_now == Some(self.touched) || foreground_now == Some(self.origin))
        &&& last_input == Some(self.input_time)
    }

    pub fn should_restore(
        &self,
        origin_now: Option<WindowIdentity>,
        foreground_now: Option<WindowIdentity>,
        last_input: Option<u32>,
        active: bool,
        generation: u32,
        sequence: u64,
    ) -> (restore: bool)
        ensures
            restore == self.spec_should_restore(
                origin_now,
                foreground_now,
                last_input,
                active,
                generation,
                sequence,
            ),
    {
        active && generation == self.generation && sequence == self.sequence && self.origin
            != self.touched && origin_now == Some(self.origin) && (foreground_now == Some(
            self.touched,
        ) || foreground_now == Some(self.origin)) && last_input == Some(self.input_time)
    }
}

/// The origin of a touch is the current focus or the previous one, never an
/// invented one. A current focus outside the touched window wins, so a deliberate
/// switch to a third app beats the cached earlier app; otherwise a previous focus
/// outside the touched window is kept; the touched window itself is chosen only
/// when neither avoids it.
pub proof fn origin_avoids_touched_window(
    current: Option<FocusSnapshot>,
    previous: Option<FocusSnapshot>,
    touched: Option<WindowIdentity>,
)
    ensures
        spec_before_touch(current, previous, touched) == current || spec_before_touch(
            current,
            previous,
            touched,
        ) == previous,
        (current matches Some(c) && Some(c.window) != touched) ==> spec_before_touch(
            current,
            previous,
            touched,
        ) == current,
        (previous matches Some(p) && Some(p.window) != touched) ==> (spec_before_touch(
            current,
            previous,
            touched,
        ) matches Some(o) && Some(o.window) != touched),
{
}

/// A restoration happens only while the touch is still the last user input,
/// the original window still exists as the same window, the touched window or
/// the original is in front, and the request is current; a tap on the original
/// window itself is never restored.
pub proof fn restore_only_when_unchanged(
    r: RestoreRequest,
    origin_now: Option<WindowIdentity>,
    foreground_now: Option<WindowIdentity>,
    last_input: Option<u32>,
    active: bool,
    generation: u32,
    sequence: u64,
)
    ensures
        r.spec_should_restore(origin_now, foreground_now, last_input, active, generation, sequence)
            ==> {
            &&& last_input == Some(r.input_time)
            &&& origin_now == Some(r.origin)
            &&& active && generation == r.generation && sequence == r.sequence
        },
        r.origin == r.touched ==> !r.spec_should_restore(
            origin_now,
            foreground_now,
            last_input,
            active,
            generation,
            sequence,
        ),
        !(foreground_now == Some(r.touched) || foreground_now == Some(r.origin)) ==> !r.spec_should_restore(
            origin_now,
            foreground_now,
            last_input,
            active,
            generation,
            sequence,
        ),
{
}

} // verus!
