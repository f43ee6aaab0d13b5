//! The count of input events the hook has seen, which the watchdog compares.
use vstd::prelude::*;

verus! {

/// The counter after one more event; it wraps around like an atomic add.
pub open spec fn counted(events: u64) -> u64 {
    if events == u64::MAX {
        0
    } else {
        (events + 1) as u64
    }
}

pub fn count_event(events: &mut u64)
    ensures
        *final(events) == counted(*old(events)),
{
    *events = events.wrapping_add(1);
}

/// A single event always changes the counter, so the watchdog can tell a check
/// that followed one event from a check that followed none.
pub proof fn event_changes_counter(events: u64)
    ensures
        counted(events) != events,
{
}

} // verus!
