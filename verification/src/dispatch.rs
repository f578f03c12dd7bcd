//! The sequential update dispatcher: one event at a time is folded into the
//! selection state. A pick terminates the session, sends the result through
//! the handoff exactly once, and makes every later event a no-op.

use vstd::prelude::*;
use crate::gui_selector::GUISelection;
use crate::handoff::send_selection;
use crate::message::Message;
use crate::state::{SelectionState, TargetDescriptor, Thumbnail, ViewMode};

verus! {

/// The dispatcher's lifecycle: it runs until exactly one pick terminates it.
#[derive(Clone, Copy, PartialEq, Eq, Structural, Debug)]
pub enum Phase {
    Running,
    Terminated,
}

/// The mathematical value of a dispatcher: its phase, the selection state,
/// and the result it has committed through the handoff, if any.
#[verifier::ext_equal]
pub ghost struct Model {
    pub phase: Phase,
    pub mode: ViewMode,
    pub outputs: Seq<(TargetDescriptor, Option<Thumbnail>)>,
    pub toplevels: Seq<(TargetDescriptor, Option<Thumbnail>)>,
    pub sent: Option<GUISelection>,
}

/// An event's index is valid against the snapshot it refers to. The scheduler
/// guarantees this for capture completions, and the renderer's buttons for
/// picks; an out-of-range index would be a programming error, so a running
/// dispatcher never accepts one.
pub open spec fn msg_valid(m: Model, message: Message) -> bool {
    match message {
        Message::ShowScreens => true,
        Message::ShowWindows => true,
        Message::ScreenSelected(i) => i < m.outputs.len(),
        Message::WindowSelected(i) => i < m.toplevels.len(),
        Message::OutputScreenshot(i, _) => i < m.outputs.len(),
        Message::ToplevelScreenshot(i, _) => i < m.toplevels.len(),
    }
}

/// The user's pick events: the only events that terminate the session.
pub open spec fn is_pick(message: Message) -> bool {
    message matches Message::ScreenSelected(_) || message matches Message::WindowSelected(_)
}

/// The capture completion events: the only events that fill thumbnail slots.
pub open spec fn is_capture(message: Message) -> bool {
    message matches Message::OutputScreenshot(..) || message matches Message::ToplevelScreenshot(..)
}

/// The one-step transition of the dispatcher. Terminated absorbs everything;
/// a running dispatcher toggles the view, fills the addressed thumbnail slot,
/// or commits the picked target and terminates.
pub open spec fn step(m: Model, message: Message) -> Model {
    if m.phase is Terminated {
        m
    } else {
        match message {
            Message::ShowScreens => Model { mode: ViewMode::Screens, ..m },
            Message::ShowWindows => Model { mode: ViewMode::Windows, ..m },
            Message::OutputScreenshot(i, t) => Model {
                outputs: m.outputs.update(i as int, (m.outputs[i as int].0, Some(t))),
                ..m
            },
            Message::ToplevelScreenshot(i, t) => Model {
                toplevels: m.toplevels.update(i as int, (m.toplevels[i as int].0, Some(t))),
                ..m
            },
            Message::ScreenSelected(i) => Model {
                phase: Phase::Terminated,
                sent: Some(GUISelection::Output(m.outputs[i as int].0)),
                ..m
            },
            Message::WindowSelected(i) => Model {
                phase: Phase::Terminated,
                sent: Some(GUISelection::Toplevel(m.toplevels[i as int].0)),
                ..m
            },
        }
    }
}

/// The update dispatcher. It exclusively owns the selection state; every
/// event — from capture tasks or from the UI — goes through `update`, one at
/// a time. `sent` records, in ghost state, the one result committed to the
/// handoff sender.
pub struct Dispatcher {
    pub state: SelectionState,
    pub phase: Phase,
    pub sent: Ghost<Option<GUISelection>>,
    pub sender: std::sync::mpsc::Sender<GUISelection>,
}

impl Dispatcher {
    pub open spec fn model(self) -> Model {
        Model {
            phase: self.phase,
            mode: self.state.mode,
            outputs: self.state.outputs@,
            toplevels: self.state.toplevels@,
            sent: self.sent@,
        }
    }

    /// A fresh dispatcher over the startup snapshot: running, nothing sent.
    pub fn new(state: SelectionState, sender: std::sync::mpsc::Sender<GUISelection>) -> (d: Self)
        ensures
            d.model() == (Model {
                phase: Phase::Running,
                mode: state.mode,
                outputs: state.outputs@,
                toplevels: state.toplevels@,
                sent: None::<GUISelection>,
            }),
    {
        Dispatcher { state, phase: Phase::Running, sent: Ghost(None), sender }
    }

    /// Applies one event, exactly as `step` says, and reports whether the UI
    /// must now shut down — which happens precisely when this event was the
    /// pick that terminated a running session. On a pick the corresponding
    /// selection is sent through the handoff once; a refused send (the
    /// receiver already gave up) is swallowed. A terminated dispatcher
    /// mutates nothing and accepts any event without panicking.
    pub fn update(&mut self, message: Message) -> (shutdown: bool)
        requires
            old(self).phase is Running ==> msg_valid(old(self).model(), message),
        ensures
            final(self).model() == step(old(self).model(), message),
            shutdown == (old(self).phase is Running && is_pick(message)),
    {
        match self.phase {
            Phase::Terminated => {
                // the UI is already exiting; late events are no-ops
                false
            },
            Phase::Running => match message {
                Message::ShowScreens => {
                    self.state.mode = ViewMode::Screens;
                    false
                },
                Message::ShowWindows => {
                    self.state.mode = ViewMode::Windows;
                    false
                },
                Message::OutputScreenshot(index, thumbnail) => {
                    self.state.outputs[index].1 = Some(thumbnail);
                    false
                },
                Message::ToplevelScreenshot(index, thumbnail) => {
                    self.state.toplevels[index].1 = Some(thumbnail);
                    false
                },
                Message::ScreenSelected(index) => {
                    let result = GUISelection::Output(copy_descriptor(&self.state.outputs[index].0));
                    self.sent = Ghost(Some(result));
                    send_selection(&self.sender, result);
                    self.phase = Phase::Terminated;
                    true
                },
                Message::WindowSelected(index) => {
                    let result = GUISelection::Toplevel(
                        copy_descriptor(&self.state.toplevels[index].0),
                    );
                    self.sent = Ghost(Some(result));
                    send_selection(&self.sender, result);
                    self.phase = Phase::Terminated;
                    true
                },
            },
        }
    }
}

/// A field-for-field copy with a known value, since nothing is known of the
/// derived `Clone`.
fn copy_descriptor(descriptor: &TargetDescriptor) -> (copy: TargetDescriptor)
    ensures
        copy == *descriptor,
{
    TargetDescriptor { label: descriptor.label.clone(), id: descriptor.id }
}

} // verus!
