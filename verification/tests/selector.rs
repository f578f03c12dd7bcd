//! Session-level behaviour of the selection state machine: construction,
//! event dispatch, termination, and the renderer's projection.

use libwaysip::dispatch::{Dispatcher, Phase};
use libwaysip::gui_selector::GUISelection;
use libwaysip::handoff::await_selection;
use libwaysip::message::Message;
use libwaysip::state::{SelectionState, TargetDescriptor, Thumbnail, ViewMode};
use std::sync::mpsc;

fn descriptor(label: &str, id: u64) -> TargetDescriptor {
    TargetDescriptor { label: label.to_string(), id }
}

fn thumbnail(width: u32, height: u32) -> Thumbnail {
    Thumbnail { width, height, pixels: vec![0u8; (width * height * 4) as usize] }
}

#[test]
fn construction_snapshots_inventory_with_absent_thumbnails() {
    let outputs = vec![descriptor("HDMI-1", 1), descriptor("eDP-1", 2)];
    let windows = vec![
        descriptor("editor", 10),
        descriptor("terminal", 11),
        descriptor("browser", 12),
    ];
    let state = SelectionState::new(outputs, windows);

    assert_eq!(state.mode, ViewMode::Screens);
    assert_eq!(state.outputs.len(), 2);
    assert_eq!(state.toplevels.len(), 3);
    assert_eq!(state.outputs[0].0.label, "HDMI-1");
    assert_eq!(state.outputs[1].0.label, "eDP-1");
    assert_eq!(state.toplevels[2].0.label, "browser");
    assert!(state.outputs.iter().all(|slot| slot.1.is_none()));
    assert!(state.toplevels.iter().all(|slot| slot.1.is_none()));
}

#[test]
fn capture_completions_commute() {
    let events = [
        Message::OutputScreenshot(0, thumbnail(4, 2)),
        Message::ToplevelScreenshot(1, thumbnail(2, 2)),
        Message::OutputScreenshot(1, thumbnail(8, 8)),
    ];

    let make_dispatcher = || {
        let outputs = vec![descriptor("HDMI-1", 1), descriptor("eDP-1", 2)];
        let windows = vec![descriptor("editor", 10), descriptor("terminal", 11)];
        let (sender, receiver) = mpsc::channel();
        (Dispatcher::new(SelectionState::new(outputs, windows), sender), receiver)
    };

    let (mut forward, _rx1) = make_dispatcher();
    for event in events.iter() {
        forward.update(event.clone());
    }
    let (mut backward, _rx2) = make_dispatcher();
    for event in events.iter().rev() {
        backward.update(event.clone());
    }

    assert_eq!(forward.state, backward.state);
    assert_eq!(forward.phase, backward.phase);
    assert_eq!(forward.state.outputs[0].1, Some(thumbnail(4, 2)));
    assert_eq!(forward.state.outputs[1].1, Some(thumbnail(8, 8)));
    assert_eq!(forward.state.toplevels[1].1, Some(thumbnail(2, 2)));
    assert_eq!(forward.state.toplevels[0].1, None);
}

#[test]
fn present_thumbnail_survives_later_events() {
    let outputs = vec![descriptor("HDMI-1", 1)];
    let windows = vec![descriptor("editor", 10)];
    let (sender, _receiver) = mpsc::channel();
    let mut dispatcher = Dispatcher::new(SelectionState::new(outputs, windows), sender);

    dispatcher.update(Message::OutputScreenshot(0, thumbnail(2, 2)));
    assert!(dispatcher.state.outputs[0].1.is_some());

    dispatcher.update(Message::ShowWindows);
    assert!(dispatcher.state.outputs[0].1.is_some());
    dispatcher.update(Message::ToplevelScreenshot(0, thumbnail(1, 1)));
    assert!(dispatcher.state.outputs[0].1.is_some());
    dispatcher.update(Message::ScreenSelected(0));
    assert!(dispatcher.state.outputs[0].1.is_some());
    assert_eq!(dispatcher.state.outputs[0].1, Some(thumbnail(2, 2)));
}

#[test]
fn pick_terminates_and_later_events_are_ignored() {
    let outputs = vec![descriptor("HDMI-1", 1), descriptor("eDP-1", 2)];
    let (sender, receiver) = mpsc::channel();
    let mut dispatcher = Dispatcher::new(SelectionState::new(outputs, vec![]), sender);

    assert_eq!(dispatcher.phase, Phase::Running);
    let shutdown = dispatcher.update(Message::ScreenSelected(1));
    assert!(shutdown);
    assert_eq!(dispatcher.phase, Phase::Terminated);

    // a second pick after termination neither mutates state nor panics,
    // and the first result stands
    let shutdown_again = dispatcher.update(Message::ScreenSelected(0));
    assert!(!shutdown_again);
    assert_eq!(dispatcher.phase, Phase::Terminated);
    dispatcher.update(Message::ShowWindows);
    assert_eq!(dispatcher.state.mode, ViewMode::Screens);

    let result = await_selection(&receiver, 100);
    assert_eq!(result, GUISelection::Output(descriptor("eDP-1", 2)));
    // nothing else was ever sent
    assert_eq!(await_selection(&receiver, 50), GUISelection::Failed);
}

#[test]
fn late_capture_after_pick_is_a_no_op() {
    let windows = vec![
        descriptor("editor", 10),
        descriptor("terminal", 11),
        descriptor("browser", 12),
    ];
    let (sender, receiver) = mpsc::channel();
    let mut dispatcher = Dispatcher::new(SelectionState::new(vec![], windows), sender);

    let shutdown = dispatcher.update(Message::WindowSelected(2));
    assert!(shutdown);

    // the capture task for window 0 completes only now
    dispatcher.update(Message::ToplevelScreenshot(0, thumbnail(3, 3)));
    assert_eq!(dispatcher.state.toplevels[0].1, None);

    // even a stray event for a slot outside the snapshot cannot make the
    // terminated dispatcher panic: it never touches the lists again
    dispatcher.update(Message::OutputScreenshot(7, thumbnail(1, 1)));
    dispatcher.update(Message::WindowSelected(9));

    let result = await_selection(&receiver, 100);
    assert_eq!(result, GUISelection::Toplevel(descriptor("browser", 12)));
}

#[test]
fn toggle_switches_the_rendered_list_both_ways() {
    let outputs = vec![descriptor("HDMI-1", 1)];
    let windows = vec![descriptor("editor", 10)];
    let (sender, _receiver) = mpsc::channel();
    let mut dispatcher = Dispatcher::new(SelectionState::new(outputs, windows), sender);

    assert_eq!(dispatcher.state.mode, ViewMode::Screens);
    dispatcher.update(Message::ShowWindows);
    assert_eq!(dispatcher.state.mode, ViewMode::Windows);
    dispatcher.update(Message::ShowScreens);
    assert_eq!(dispatcher.state.mode, ViewMode::Screens);
}
