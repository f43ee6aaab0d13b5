//! The configuration that the settings window sends to the input service.
use vstd::prelude::*;

verus! {

/// One configuration line, as the settings window writes it.
pub struct Settings {
    pub enabled: bool,
    pub restore_focus: bool,
    pub stylus_mouse_independent: bool,
    pub focus_restore_delay: i32,
    pub focus_restore_on_mouse_move: bool,
    pub touch_all_displays: bool,
    pub touch_display_bounds: String,
    pub touch_override_modifier: String,
    pub focus_keep_apps: String,
    pub focus_restore_apps: String,
}

impl Settings {
    /// The settings that a missing field takes: everything off, a 120 ms delay,
    /// all displays selected, no modifier and no app rules.
    pub open spec fn is_default(self) -> bool {
        &&& !self.enabled
        &&& !self.restore_focus
        &&& !self.stylus_mouse_independent
        &&& self.focus_restore_delay == 120
        &&& !self.focus_restore_on_mouse_move
        &&& self.touch_all_displays
        &&& self.touch_display_bounds@ == Seq::<char>::empty()
        &&& self.touch_override_modifier@ == Seq::<char>::empty()
        &&& self.focus_keep_apps@ == Seq::<char>::empty()
        &&& self.focus_restore_apps@ == Seq::<char>::empty()
    }
}

impl Clone for Settings {
    fn clone(&self) -> (copy: Self)
        ensures
            copy == *self,
    {
        Settings {
            enabled: self.enabled,
            restore_focus: self.restore_focus,
            stylus_mouse_independent: self.stylus_mouse_independent,
            focus_restore_delay: self.focus_restore_delay,
            focus_restore_on_mouse_move: self.focus_restore_on_mouse_move,
            touch_all_displays: self.touch_all_displays,
            touch_display_bounds: self.touch_display_bounds.clone(),
            touch_override_modifier: self.touch_override_modifier.clone(),
            focus_keep_apps: self.focus_keep_apps.clone(),
            focus_restore_apps: self.focus_restore_apps.clone(),
        }
    }
}

impl Default for Settings {
    fn default() -> (settings: Self)
        ensures
            settings.is_default(),
    {
        Settings {
            enabled: false,
            restore_focus: false,
            stylus_mouse_independent: false,
            focus_restore_delay: 120,
            focus_restore_on_mouse_move: false,
            touch_all_displays: true,
            touch_display_bounds: String::new(),
            touch_override_modifier: String::new(),
            focus_keep_apps: String::new(),
            focus_restore_apps: String::new(),
        }
    }
}

} // verus!
