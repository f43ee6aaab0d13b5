//! State for resuming the mouse after Windows promotes touch to mouse messages.
//! Touch events are never swallowed. No allocation, OS access, or locks: the
//! adapter owns cursor restoration.
use vstd::prelude::*;

verus! {

/// The mask that selects the signature bits of a mouse message's extra info.
pub const SIGNATURE_MASK: usize = 0xffff_ff80;

/// The signature that Windows puts on mouse messages promoted from touch.
pub const TOUCH_SIGNATURE: usize = 0xff51_5780;

/// The signature that Windows puts on mouse messages promoted from a pen.
pub const PEN_SIGNATURE: usize = 0xff51_5700;

pub fn is_touch(extra: usize) -> (touch: bool)
    ensures
        touch == (extra & SIGNATURE_MASK == TOUCH_SIGNATURE),
{
    extra & SIGNATURE_MASK == TOUCH_SIGNATURE
}

pub fn is_pen(extra: usize) -> (pen: bool)
    ensures
        pen == (extra & SIGNATURE_MASK == PEN_SIGNATURE),
{
    extra & SIGNATURE_MASK == PEN_SIGNATURE
}

/// A cursor position on the virtual screen.
pub type Point = (i32, i32);

/// What a [`NativeTouchResume`] holds.
pub struct NativeTouchView {
    pub saved: Option<Point>,
    pub bypass: bool,
    pub promoted: bool,
}

/// Fallback for native touch that has no promoted mouse messages. The adapter
/// must supply positive touchscreen evidence; a large mouse delta is not enough.
/// Keep the original anchor across a burst and let promoted events own policy
/// when they are available. An override anywhere in a native burst cancels it.
#[derive(Clone, Copy, Default)]
pub struct NativeTouchResume {
    saved: Option<Point>,
    bypass: bool,
    promoted: bool,
}

impl View for NativeTouchResume {
    type V = NativeTouchView;

    closed spec fn view(&self) -> NativeTouchView {
        NativeTouchView { saved: self.saved, bypass: self.bypass, promoted: self.promoted }
    }
}

/// The state after one native touch report at `cursor`, which the policy
/// allows (`allowed`) or overrides.
pub open spec fn native_observed(s: NativeTouchView, cursor: Option<Point>, allowed: bool) -> NativeTouchView {
    let bypass = s.bypass || !allowed;
    NativeTouchView {
        saved: if !s.promoted && !bypass && s.saved is None { cursor } else { s.saved },
        bypass,
        promoted: s.promoted,
    }
}

/// The state after a promoted mouse message showed that Windows handles the touch.
pub open spec fn native_promoted(s: NativeTouchView) -> NativeTouchView {
    NativeTouchView { saved: None, bypass: s.bypass, promoted: true }
}

/// Where the cursor goes back to, if anywhere.
pub open spec fn native_target(s: NativeTouchView, selected_display: bool) -> Option<Point> {
    if s.bypass || s.promoted || !selected_display {
        None
    } else {
        s.saved
    }
}

impl NativeTouchResume {
    pub fn new() -> (state: Self)
        ensures
            state@ == (NativeTouchView { saved: None, bypass: false, promoted: false }),
    {
        Self { saved: None, bypass: false, promoted: false }
    }

    pub fn observe(&mut self, cursor: Option<Point>, allowed: bool)
        ensures
            final(self)@ == native_observed(old(self)@, cursor, allowed),
    {
        self.bypass = self.bypass || !allowed;
        if !self.promoted && !self.bypass && self.saved.is_none() {
            self.saved = cursor;
        }
    }

    pub fn promoted(&mut self)
        ensures
            final(self)@ == native_promoted(old(self)@),
    {
        self.promoted = true;
        self.saved = None;
    }

    pub fn target(&self, selected_display: bool) -> (target: Option<Point>)
        ensures
            target == native_target(self@, selected_display),
    {
        if self.bypass || self.promoted || !selected_display {
            None
        } else {
            self.saved
        }
    }

    pub fn pending(&self) -> (pending: bool)
        ensures
            pending == native_target(self@, true) is Some,
    {
        self.target(true).is_some()
    }
}

/// What a [`TouchResume`] holds.
pub struct TouchResumeView {
    pub saved: Option<Point>,
    pub contact: bool,
}

/// The cursor position saved before a promoted touch burst, and whether a
/// finger is down.
#[derive(Clone, Copy, Default)]
pub struct TouchResume {
    saved: Option<Point>,
    contact: bool,
}

impl View for TouchResume {
    type V = TouchResumeView;

    closed spec fn view(&self) -> TouchResumeView {
        TouchResumeView { saved: self.saved, contact: self.contact }
    }
}

/// The state after a promoted touch message.
pub open spec fn touched(s: TouchResumeView, cursor_before_touch: Option<Point>, down: bool, up: bool) -> TouchResumeView {
    TouchResumeView {
        saved: if s.saved is None { cursor_before_touch } else { s.saved },
        contact: if up { false } else if down { true } else { s.contact },
    }
}

/// The position handed back by a resume, and the state after it.
pub open spec fn resumed(s: TouchResumeView) -> (Option<Point>, TouchResumeView) {
    if s.contact {
        (None, s)
    } else {
        (s.saved, TouchResumeView { saved: None, contact: s.contact })
    }
}

impl TouchResume {
    pub fn new() -> (state: Self)
        ensures
            state@ == (TouchResumeView { saved: None, contact: false }),
    {
        Self { saved: None, contact: false }
    }

    pub fn touch(&mut self, cursor_before_touch: Option<Point>, down: bool, up: bool)
        ensures
            final(self)@ == touched(old(self)@, cursor_before_touch, down, up),
    {
        if self.saved.is_none() {
            self.saved = cursor_before_touch;
        }
        if down {
            self.contact = true;
        }
        if up {
            self.contact = false;
        }
    }

    pub fn resume(&mut self) -> (position: Option<Point>)
        ensures
            (position, final(self)@) == resumed(old(self)@),
    {
        if self.contact {
            None
        } else {
            self.saved.take()
        }
    }

    pub fn in_contact(&self) -> (contact: bool)
        ensures
            contact == self@.contact,
    {
        self.contact
    }

    pub fn pending(&self) -> (pending: bool)
        ensures
            pending == (self@.saved is Some || self@.contact),
    {
        self.saved.is_some() || self.contact
    }

    pub fn reset(&mut self)
        ensures
            final(self)@ == (TouchResumeView { saved: None, contact: false }),
    {
        *self = Self::new();
    }
}

/// One input that a [`NativeTouchResume`] observes.
pub enum NativeEvent {
    /// A native touch report at a cursor position, allowed by the policy or not.
    Observe(Option<Point>, bool),
    /// A promoted mouse message.
    Promoted,
}

/// The state after a run of native inputs.
pub open spec fn native_run(s: NativeTouchView, events: Seq<NativeEvent>) -> NativeTouchView
    decreases events.len(),
{
    if events.len() == 0 {
        s
    } else {
        let t = native_run(s, events.drop_last());
        match events.last() {
            NativeEvent::Observe(cursor, allowed) => native_observed(t, cursor, allowed),
            NativeEvent::Promoted => native_promoted(t),
        }
    }
}

/// Mouse messages promoted from touch and from a pen carry different
/// signatures: no extra info is both.
pub proof fn signatures_are_exclusive(extra: usize)
    ensures
        !(extra & SIGNATURE_MASK == TOUCH_SIGNATURE && extra & SIGNATURE_MASK == PEN_SIGNATURE),
{
}

/// An override anywhere in a native burst cancels it, and promoted mouse
/// messages own the policy whatever order the raw messages arrive in: once
/// cancelled, no run of further inputs brings back a target.
pub proof fn cancelled_burst_stays_cancelled(s: NativeTouchView, events: Seq<NativeEvent>, selected_display: bool)
    requires
        s.bypass || s.promoted,
    ensures
        native_run(s, events).bypass || native_run(s, events).promoted,
        native_target(native_run(s, events), selected_display) is None,
    decreases events.len(),
{
    if events.len() > 0 {
        cancelled_burst_stays_cancelled(s, events.drop_last(), selected_display);
    }
}

/// Native taps keep the original anchor: once a position is saved, later
/// inputs either keep it or cancel the burst.
pub proof fn native_anchor_is_kept(s: NativeTouchView, events: Seq<NativeEvent>)
    requires
        s.saved is Some,
    ensures
        native_run(s, events).saved == s.saved || native_run(s, events).bypass || native_run(
            s,
            events,
        ).promoted,
    decreases events.len(),
{
    if events.len() > 0 {
        native_anchor_is_kept(s, events.drop_last());
    }
}

/// Whether a native input cancels the burst: an override or a promoted message.
pub open spec fn cancels(e: NativeEvent) -> bool {
    match e {
        NativeEvent::Observe(_, allowed) => !allowed,
        NativeEvent::Promoted => true,
    }
}

/// The first cursor position that a run of native inputs observed, if any.
pub open spec fn first_observed(events: Seq<NativeEvent>) -> Option<Point>
    decreases events.len(),
{
    if events.len() == 0 {
        None
    } else {
        let first = first_observed(events.drop_last());
        if first is Some {
            first
        } else {
            match events.last() {
                NativeEvent::Observe(cursor, _) => cursor,
                NativeEvent::Promoted => None,
            }
        }
    }
}

proof fn lemma_native_run_from_start(events: Seq<NativeEvent>)
    ensures
        ({
            let t = native_run(NativeTouchView { saved: None, bypass: false, promoted: false }, events);
            &&& (t.bypass || t.promoted) <==> exists|i: int| 0 <= i < events.len() && cancels(#[trigger] events[i])
            &&& !(t.bypass || t.promoted) ==> t.saved == first_observed(events)
        }),
    decreases events.len(),
{
    if events.len() > 0 {
        let prefix = events.drop_last();
        lemma_native_run_from_start(prefix);
        let n = events.len() - 1;
        assert(events[n] == events.last());
        assert forall|i: int| 0 <= i < n implies #[trigger] events[i] == prefix[i] by {}
        let s0 = NativeTouchView { saved: None, bypass: false, promoted: false };
        let t = native_run(s0, events);
        if exists|i: int| 0 <= i < events.len() && cancels(#[trigger] events[i]) {
            let i = choose|i: int| 0 <= i < events.len() && cancels(#[trigger] events[i]);
            if i < n {
                assert(cancels(prefix[i]));
            }
        }
        if exists|i: int| 0 <= i < prefix.len() && cancels(#[trigger] prefix[i]) {
            let i = choose|i: int| 0 <= i < prefix.len() && cancels(#[trigger] prefix[i]);
            assert(cancels(events[i]));
        }
    }
}

/// The native target after a fresh start: none on an unselected display, and on
/// a selected one the first cursor position observed, provided that no override
/// and no promoted message came since.
pub proof fn native_target_is_first_observed(events: Seq<NativeEvent>, selected_display: bool)
    ensures
        ({
            let t = native_run(NativeTouchView { saved: None, bypass: false, promoted: false }, events);
            &&& native_target(t, false) is None
            &&& native_target(t, true) is Some ==> {
                &&& forall|i: int| 0 <= i < events.len() ==> !cancels(#[trigger] events[i])
                &&& native_target(t, true) == first_observed(events)
            }
            &&& (forall|i: int| 0 <= i < events.len() ==> !cancels(#[trigger] events[i]))
                ==> native_target(t, true) == first_observed(events)
        }),
{
    lemma_native_run_from_start(events);
}

/// A promoted touch message or a resume.
pub enum ResumeEvent {
    Touch(TouchEvent),
    Resume,
}

/// The state after a run of promoted touch messages and resumes.
pub open spec fn resume_run(s: TouchResumeView, events: Seq<ResumeEvent>) -> TouchResumeView
    decreases events.len(),
{
    if events.len() == 0 {
        s
    } else {
        let t = resume_run(s, events.drop_last());
        match events.last() {
            ResumeEvent::Touch(e) => touched(t, e.cursor, e.down, e.up),
            ResumeEvent::Resume => resumed(t).1,
        }
    }
}

/// Whether the last touch message that put a finger down or lifted it put it
/// down; false when there was none.
pub open spec fn last_contact(events: Seq<ResumeEvent>) -> bool
    decreases events.len(),
{
    if events.len() == 0 {
        false
    } else {
        match events.last() {
            ResumeEvent::Touch(e) if e.down || e.up => !e.up,
            _ => last_contact(events.drop_last()),
        }
    }
}

/// The contact state after a fresh start follows the last finger-down or
/// finger-up message; moves and resumes never change it.
pub proof fn contact_follows_last_down_or_up(events: Seq<ResumeEvent>)
    ensures
        resume_run(TouchResumeView { saved: None, contact: false }, events).contact == last_contact(events),
    decreases events.len(),
{
    if events.len() > 0 {
        contact_follows_last_down_or_up(events.drop_last());
    }
}

/// Never warp during a touch drag: while a finger is down, resuming gives
/// nothing and keeps the saved position.
pub proof fn no_resume_during_contact(s: TouchResumeView)
    requires
        s.contact,
    ensures
        resumed(s).0 is None,
        resumed(s).1 == s,
{
}

/// The saved position is restored once: a second resume right after the first
/// gives nothing.
pub proof fn resume_restores_once(s: TouchResumeView)
    ensures
        resumed(resumed(s).1).0 is None,
{
}

/// One promoted touch message: the cursor read just before it, and whether the
/// finger went down or up.
pub struct TouchEvent {
    pub cursor: Option<Point>,
    pub down: bool,
    pub up: bool,
}

/// The state after a run of promoted touch messages.
pub open spec fn touch_run(s: TouchResumeView, events: Seq<TouchEvent>) -> TouchResumeView
    decreases events.len(),
{
    if events.len() == 0 {
        s
    } else {
        let e = events.last();
        touched(touch_run(s, events.drop_last()), e.cursor, e.down, e.up)
    }
}

/// A failed cursor read does not invent a position, and repeated taps keep the
/// original one: after a fresh start, the position to resume is the first
/// cursor position that was read, if any was.
pub proof fn saved_position_is_first_read(events: Seq<TouchEvent>)
    ensures
        touch_run(TouchResumeView { saved: None, contact: false }, events).saved is Some ==> exists|i: int|
            0 <= i < events.len() && (#[trigger] events[i]).cursor == touch_run(
                TouchResumeView { saved: None, contact: false },
                events,
            ).saved && forall|j: int| 0 <= j < i ==> (#[trigger] events[j]).cursor is None,
        (forall|j: int| 0 <= j < events.len() ==> (#[trigger] events[j]).cursor is None) <==> touch_run(
            TouchResumeView { saved: None, contact: false },
            events,
        ).saved is None,
    decreases events.len(),
{
    let start = TouchResumeView { saved: None, contact: false };
    if events.len() > 0 {
        let prefix = events.drop_last();
        let n = events.len() - 1;
        saved_position_is_first_read(prefix);
        let t = touch_run(start, prefix);
        let last = events.last();
        assert(events[n] == last);
        assert forall|j: int| 0 <= j < n implies #[trigger] events[j] == prefix[j] by {}
        if t.saved is Some {
            let i = choose|i: int|
                0 <= i < prefix.len() && (#[trigger] prefix[i]).cursor == t.saved && forall|j: int|
                    0 <= j < i ==> (#[trigger] prefix[j]).cursor is None;
            assert(events[i] == prefix[i]);
            assert(events[i].cursor is Some);
        } else {
            assert(forall|j: int| 0 <= j < prefix.len() ==> (#[trigger] prefix[j]).cursor is None);
            if last.cursor is Some {
                assert(forall|j: int| 0 <= j < n ==> (#[trigger] events[j]).cursor is None);
            } else {
                assert forall|j: int| 0 <= j < events.len() implies (#[trigger] events[j]).cursor is None by {
                    if j < n {
                        assert(events[j] == prefix[j]);
                    }
                }
            }
        }
    }
}

} // verus!
