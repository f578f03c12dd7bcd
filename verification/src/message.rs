//! The single state-update event stream's message type. Capture tasks and
//! user-input callbacks all funnel into this one enum, consumed one event at
//! a time by the update dispatcher.

use vstd::prelude::*;
use crate::state::Thumbnail;

verus! {

/// One state-update event.
///
/// `ShowScreens` / `ShowWindows` toggle the rendered list. `ScreenSelected` /
/// `WindowSelected` are the user's pick, by position in the snapshot list.
/// `OutputScreenshot` / `ToplevelScreenshot` carry a completed capture for the
/// target at the given position.
#[derive(Clone, PartialEq, Eq, Debug)]
pub enum Message {
    ShowScreens,
    ShowWindows,
    ScreenSelected(usize),
    WindowSelected(usize),
    OutputScreenshot(usize, Thumbnail),
    ToplevelScreenshot(usize, Thumbnail),
}

} // verus!
