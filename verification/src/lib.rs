//! A keyboard input-processing library: raw scancodes are decoded into
//! physical key transitions, and a keyboard state machine tracks held keys
//! and lock flags to resolve each transition into a logical event — a typed
//! symbol or a command — under the active layout.

pub mod keys;
pub mod scancode;
pub mod layout;
pub mod event;
pub mod state;
