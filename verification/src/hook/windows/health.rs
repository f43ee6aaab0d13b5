//! Watchdog for the low-level mouse hook. Windows silently removes a hook that
//! times out; a cursor that moves while no event arrives reveals that.
use vstd::prelude::*;
use crate::hook::touch::Point;

verus! {

/// What a [`HookHealth`] holds.
pub struct HealthView {
    pub events: u64,
    pub cursor: Option<Point>,
    pub misses: u8,
}

/// The event count and cursor position at the previous check, and how many
/// checks in a row saw the cursor move without any hook event.
#[derive(Clone, Copy, Default)]
pub struct HookHealth {
    events: u64,
    cursor: Option<Point>,
    misses: u8,
}

impl View for HookHealth {
    type V = HealthView;

    closed spec fn view(&self) -> HealthView {
        HealthView { events: self.events, cursor: self.cursor, misses: self.misses }
    }
}

/// The state after a check that saw `events` hook events so far and the cursor
/// at `cursor`, and whether the hook must be installed again.
pub open spec fn health_checked(h: HealthView, events: u64, cursor: Point) -> (HealthView, bool) {
    let moved_silently = h.events == events && (h.cursor matches Some(p) && p != cursor);
    let misses: u8 = if moved_silently {
        if h.misses == u8::MAX { u8::MAX } else { (h.misses + 1) as u8 }
    } else {
        0
    };
    (HealthView { events, cursor: Some(cursor), misses }, misses >= 2)
}

impl HookHealth {
    pub fn new() -> (health: Self)
        ensures
            health@ == (HealthView { events: 0, cursor: None, misses: 0 }),
    {
        HookHealth { events: 0, cursor: None, misses: 0 }
    }

    pub fn check(&mut self, events: u64, cursor: Point) -> (rehook: bool)
        ensures
            (final(self)@, rehook) == health_checked(old(self)@, events, cursor),
    {
        let moved_silently = self.events == events && match self.cursor {
            Some(p) => p.0 != cursor.0 || p.1 != cursor.1,
            None => false,
        };
        let misses = if moved_silently {
            self.misses.saturating_add(1)
        } else {
            0
        };
        self.events = events;
        self.cursor = Some(cursor);
        self.misses = misses;
        misses >= 2
    }
}

/// The hook is installed again only after two checks in a row saw the cursor
/// move while no hook event arrived; any event, or a still cursor, clears the
/// count.
pub proof fn rehook_needs_repeated_silence(h: HealthView, events: u64, cursor: Point)
    ensures
        health_checked(h, events, cursor).1 ==> {
            &&& h.misses >= 1
            &&& h.events == events
            &&& h.cursor matches Some(p) && p != cursor
        },
        h.events != events ==> health_checked(h, events, cursor).0.misses == 0,
        h.cursor == Some(cursor) ==> health_checked(h, events, cursor).0.misses == 0,
{
}

} // verus!
