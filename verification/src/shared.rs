//! Service state shared by the hook, the message pump and the restore worker.
//! The adapter keeps one value of it behind a lock.
use vstd::prelude::*;
use crate::settings::Settings;
use crate::hook::touch_policy::TouchPolicy;

verus! {

pub struct Shared {
    pub hooked: bool,
    pub want_hook: bool,
    pub paused: bool,
    pub touch_mouse_independent: bool,
    pub restore_keyboard_focus: bool,
    /// Advances on every configuration, which invalidates pending restorations.
    pub touch_generation: u32,
    pub touch_policy: TouchPolicy,
}

/// The generation after one more configuration; it wraps around like an atomic add.
pub open spec fn next_generation(generation: u32) -> u32 {
    if generation == u32::MAX {
        0
    } else {
        (generation + 1) as u32
    }
}

impl Shared {
    /// Touch independence is wanted, enabled, and not paused.
    pub open spec fn spec_touch_active(self) -> bool {
        self.want_hook && self.touch_mouse_independent && !self.paused
    }

    pub fn new() -> (shared: Self)
        ensures
            !shared.hooked,
            shared.want_hook,
            !shared.paused,
            !shared.touch_mouse_independent,
            !shared.restore_keyboard_focus,
            shared.touch_generation == 0,
            exists|layout: Settings| layout.is_default() && shared.touch_policy.from_settings(layout),
    {
        let layout = Settings::default();
        let touch_policy = TouchPolicy::from_layout(&layout);
        Shared {
            hooked: false,
            want_hook: true,
            paused: false,
            touch_mouse_independent: false,
            restore_keyboard_focus: false,
            touch_generation: 0,
            touch_policy,
        }
    }

    pub fn touch_active(&self) -> (active: bool)
        ensures
            active == self.spec_touch_active(),
    {
        self.want_hook && self.touch_mouse_independent && !self.paused
    }

    /// Applies a configuration: a new policy, the two switches, and a new generation.
    pub fn apply(&mut self, s: Settings)
        ensures
            final(self).touch_policy.from_settings(s),
            final(self).restore_keyboard_focus == s.restore_focus,
            final(self).touch_mouse_independent == s.enabled,
            final(self).touch_generation == next_generation(old(self).touch_generation),
            final(self).hooked == old(self).hooked,
            final(self).want_hook == old(self).want_hook,
            final(self).paused == old(self).paused,
    {
        self.touch_policy = TouchPolicy::from_layout(&s);
        self.restore_keyboard_focus = s.restore_focus;
        self.touch_mouse_independent = s.enabled;
        self.touch_generation = self.touch_generation.wrapping_add(1);
    }
}

/// Every configuration moves to a different generation, so a request made under
/// the previous configuration never passes the generation check.
pub proof fn configuration_changes_generation(generation: u32)
    ensures
        next_generation(generation) != generation,
{
}

} // verus!
