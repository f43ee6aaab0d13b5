//! Touch, pen and focus-restoration decision logic for an input service that
//! keeps the mouse independent of the touchscreen.
pub mod hook;
pub mod settings;
pub mod shared;
pub mod text;
