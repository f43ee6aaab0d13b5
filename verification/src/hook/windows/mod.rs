pub mod focus_restore;
pub mod health;
pub mod mouse;
pub mod native_touch;
pub mod restore_worker;
pub mod touch_contacts;
pub mod touch_input;
