//! Movement tracking of the physical mouse; touch keeps none.
use vstd::prelude::*;

verus! {

/// Forgets any accumulated physical movement. Touch independence keeps no
/// movement state, so there is nothing to forget.
pub fn reset_movement() {
}

} // verus!
