//! Modal input dispatch for a CAD application shell.
//!
//! Raw device events are normalized into semantic input events, filtered by
//! the modifier keys that are held, and resolved through the keymap of the
//! active viewport's mode into command identifiers.
pub mod math;
pub mod modifiers;
pub mod input;
pub mod keymap;
pub mod viewport;
pub mod dispatch;
