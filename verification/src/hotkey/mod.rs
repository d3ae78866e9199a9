//! The hotkey's view of a recording cycle.

pub mod manager;
pub mod shortcut;
