//! Hooks that react to window-manager events.

pub mod mejo13;
