//! The view renderer: a pure projection of the selection state into the
//! structure a toolkit draws — the two mutually exclusive toggle buttons and
//! one pick button per item of the active list, each with its label and, once
//! the capture arrived, its thumbnail. Identical states project to identical
//! layouts, and every field of the layout is pinned by the contract.

use vstd::prelude::*;
use crate::message::Message;
use crate::state::{SelectionState, TargetDescriptor, Thumbnail, ViewMode};

verus! {

/// One of the two view toggles; pressing it emits its toggle event.
#[derive(Clone, PartialEq, Eq, Debug)]
pub struct ToggleButton {
    pub active: bool,
    pub on_press: Message,
}

/// One selectable item of the active list: the target's label, whether its
/// thumbnail has arrived, and the pick event the button is bound to. The
/// thumbnail's pixels stay in the state; the embedding toolkit fetches them
/// by the same index when it draws.
#[derive(Clone, PartialEq, Eq, Debug)]
pub struct ItemButton {
    pub label: String,
    pub has_thumbnail: bool,
    pub on_press: Message,
}

/// Everything the toolkit needs to draw one frame.
#[derive(Clone, PartialEq, Eq, Debug)]
pub struct ViewLayout {
    pub screens_button: ToggleButton,
    pub windows_button: ToggleButton,
    pub items: Vec<ItemButton>,
}

/// The list the current view mode renders.
pub open spec fn active_list(state: SelectionState) -> Seq<(TargetDescriptor, Option<Thumbnail>)> {
    match state.mode {
        ViewMode::Screens => state.outputs@,
        ViewMode::Windows => state.toplevels@,
    }
}

/// The pick event bound to the item at position `i` of the active list.
pub open spec fn item_message(mode: ViewMode, i: int) -> Message {
    match mode {
        ViewMode::Screens => Message::ScreenSelected(i as usize),
        ViewMode::Windows => Message::WindowSelected(i as usize),
    }
}

/// Projects the state into the frame's structure: the active toggle matches
/// the view mode, and the items mirror the active list — same length, same
/// order, each button carrying its target's label, its slot's presence, and
/// the pick event for exactly its own position.
pub fn view(state: &SelectionState) -> (layout: ViewLayout)
    ensures
        layout.screens_button.active == (state.mode == ViewMode::Screens),
        layout.windows_button.active == (state.mode == ViewMode::Windows),
        layout.screens_button.on_press == Message::ShowScreens,
        layout.windows_button.on_press == Message::ShowWindows,
        layout.items@.len() == active_list(*state).len(),
        forall|i: int|
            0 <= i < layout.items@.len() ==> {
                &&& (#[trigger] layout.items@[i]).label == active_list(*state)[i].0.label
                &&& layout.items@[i].has_thumbnail == (active_list(*state)[i].1 is Some)
                &&& layout.items@[i].on_press == item_message(state.mode, i)
            },
{
    let screens_active = match state.mode {
        ViewMode::Screens => true,
        ViewMode::Windows => false,
    };
    let screens_button = ToggleButton { active: screens_active, on_press: Message::ShowScreens };
    let windows_button = ToggleButton { active: !screens_active, on_press: Message::ShowWindows };

    let mut items: Vec<ItemButton> = Vec::new();
    match state.mode {
        ViewMode::Screens => {
            let mut i: usize = 0;
            while i < state.outputs.len()
                invariant
                    state.mode == ViewMode::Screens,
                    i <= state.outputs@.len(),
                    items@.len() == i,
                    forall|j: int|
                        0 <= j < i ==> {
                            &&& (#[trigger] items@[j]).label == state.outputs@[j].0.label
                            &&& items@[j].has_thumbnail == (state.outputs@[j].1 is Some)
                            &&& items@[j].on_press == Message::ScreenSelected(j as usize)
                        },
                decreases state.outputs@.len() - i,
            {
                let entry = &state.outputs[i];
                items.push(build_button(&entry.0.label, &entry.1, Message::ScreenSelected(i)));
                i += 1;
            }
        },
        ViewMode::Windows => {
            let mut i: usize = 0;
            while i < state.toplevels.len()
                invariant
                    state.mode == ViewMode::Windows,
                    i <= state.toplevels@.len(),
                    items@.len() == i,
                    forall|j: int|
                        0 <= j < i ==> {
                            &&& (#[trigger] items@[j]).label == state.toplevels@[j].0.label
                            &&& items@[j].has_thumbnail == (state.toplevels@[j].1 is Some)
                            &&& items@[j].on_press == Message::WindowSelected(j as usize)
                        },
                decreases state.toplevels@.len() - i,
            {
                let entry = &state.toplevels[i];
                items.push(build_button(&entry.0.label, &entry.1, Message::WindowSelected(i)));
                i += 1;
            }
        },
    }
    ViewLayout { screens_button, windows_button, items }
}

/// One item button, all fields pinned.
fn build_button(label: &String, slot: &Option<Thumbnail>, on_press: Message) -> (button: ItemButton)
    ensures
        button.label == *label,
        button.has_thumbnail == (slot is Some),
        button.on_press == on_press,
{
    ItemButton { label: label.clone(), has_thumbnail: slot.is_some(), on_press }
}

} // verus!
