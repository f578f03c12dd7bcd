//! The bounded result handoff and the selector builder.

use libwaysip::gui_selector::{AreaSelectorGUI, GUISelection, WaySipTheme};
use libwaysip::handoff::{await_selection, resolve_outcome, SELECTION_TIMEOUT_MS};
use libwaysip::state::TargetDescriptor;
use std::sync::mpsc;
use std::time::Instant;

fn descriptor(label: &str, id: u64) -> TargetDescriptor {
    TargetDescriptor { label: label.to_string(), id }
}

#[test]
fn sent_selection_is_returned() {
    let (sender, receiver) = mpsc::channel();
    sender.send(GUISelection::Output(descriptor("HDMI-1", 1))).unwrap();
    let result = await_selection(&receiver, SELECTION_TIMEOUT_MS);
    assert_eq!(result, GUISelection::Output(descriptor("HDMI-1", 1)));
}

#[test]
fn silent_session_fails_only_after_the_timeout() {
    // the UI stays open and never picks: the sender is alive but silent
    let (sender, receiver) = mpsc::channel();
    let start = Instant::now();
    let result = await_selection(&receiver, 200);
    let elapsed = start.elapsed();
    assert_eq!(result, GUISelection::Failed);
    assert!(elapsed.as_millis() >= 200);
    drop(sender);
}

#[test]
fn abandoned_session_fails() {
    // the UI was torn down without ever sending
    let (sender, receiver) = mpsc::channel();
    drop(sender);
    let result = await_selection(&receiver, SELECTION_TIMEOUT_MS);
    assert_eq!(result, GUISelection::Failed);
}

#[test]
fn resolution_keeps_a_value_and_fails_an_empty_wait() {
    let picked = GUISelection::Toplevel(descriptor("editor", 10));
    assert_eq!(resolve_outcome(Some(picked.clone())), picked);
    assert_eq!(resolve_outcome(None), GUISelection::Failed);
}

#[test]
fn builder_defaults_to_dark_and_keeps_a_chosen_theme() {
    let selector = AreaSelectorGUI::new();
    assert_eq!(selector.theme, WaySipTheme::Dark);
    assert_eq!(WaySipTheme::default(), WaySipTheme::Dark);

    let themed = AreaSelectorGUI::new().with_theme(WaySipTheme::Nord);
    assert_eq!(themed.theme, WaySipTheme::Nord);
}
