//! Keyboard input synthesis: shortcut keys to release and text to type.

pub mod modifier_keys;
pub mod type_input;

pub use type_input::type_input;
