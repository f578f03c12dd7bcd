//! A verified core for a Wayland area/window/output selector.
//!
//! The library models the selection session itself: the inventory snapshot
//! taken at startup, the per-target thumbnail slots filled in by concurrent
//! capture tasks, the sequential update dispatcher that folds events into the
//! state and resolves the interaction to exactly one result, the pure view
//! projection a toolkit renders from, and the one-shot cross-thread result
//! handoff with a bounded wait. The compositor client and the widget toolkit
//! stay outside; they drive these functions.

pub mod capture;
pub mod dispatch;
pub mod gui_selector;
pub mod handoff;
pub mod laws;
pub mod message;
pub mod render;
pub mod state;
