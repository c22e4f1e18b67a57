//! Optional behaviour that plugs into the window manager.

pub mod hooks;
