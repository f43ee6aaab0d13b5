pub mod focus_restore;
pub mod hot_path;
pub mod touch;
pub mod touch_policy;
pub mod windows;
