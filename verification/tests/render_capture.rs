//! The renderer's projection and the capture scheduler's fan-out and
//! completion parsing.

use libwaysip::capture::{capture_requests, parse_screenshot, CaptureRequest, TargetKind};
use libwaysip::dispatch::Dispatcher;
use libwaysip::message::Message;
use libwaysip::render::view;
use libwaysip::state::{SelectionState, TargetDescriptor};
use std::sync::mpsc;

fn descriptor(label: &str, id: u64) -> TargetDescriptor {
    TargetDescriptor { label: label.to_string(), id }
}

#[test]
fn view_renders_active_list_with_labels_and_pick_bindings() {
    let outputs = vec![descriptor("HDMI-1", 1), descriptor("eDP-1", 2)];
    let state = SelectionState::new(outputs, vec![]);
    let layout = view(&state);

    assert!(layout.screens_button.active);
    assert!(!layout.windows_button.active);
    assert_eq!(layout.screens_button.on_press, Message::ShowScreens);
    assert_eq!(layout.windows_button.on_press, Message::ShowWindows);
    assert_eq!(layout.items.len(), 2);
    assert_eq!(layout.items[0].label, "HDMI-1");
    assert_eq!(layout.items[1].label, "eDP-1");
    assert_eq!(layout.items[0].on_press, Message::ScreenSelected(0));
    assert_eq!(layout.items[1].on_press, Message::ScreenSelected(1));
}

#[test]
fn view_after_all_captures_failed_shows_bare_titles() {
    // 0 outputs, 3 windows, every capture attempt failed or unsupported
    let windows = vec![
        descriptor("editor", 10),
        descriptor("terminal", 11),
        descriptor("browser", 12),
    ];
    let (sender, _receiver) = mpsc::channel();
    let mut dispatcher = Dispatcher::new(SelectionState::new(vec![], windows), sender);

    for index in 0..3 {
        let message = parse_screenshot(TargetKind::Toplevel, index, Err::<image::DynamicImage, ()>(()));
        assert!(message.is_none());
    }
    // no event reached the dispatcher, so all three slots stay absent
    dispatcher.update(Message::ShowWindows);
    let layout = view(&dispatcher.state);

    assert!(layout.windows_button.active);
    assert!(!layout.screens_button.active);
    assert_eq!(layout.items.len(), 3);
    assert_eq!(layout.items[0].label, "editor");
    assert_eq!(layout.items[1].label, "terminal");
    assert_eq!(layout.items[2].label, "browser");
    assert!(layout.items.iter().all(|item| !item.has_thumbnail));
    assert_eq!(layout.items[0].on_press, Message::WindowSelected(0));
    assert_eq!(layout.items[1].on_press, Message::WindowSelected(1));
    assert_eq!(layout.items[2].on_press, Message::WindowSelected(2));
}

#[test]
fn view_marks_arrived_thumbnails() {
    let outputs = vec![descriptor("HDMI-1", 1), descriptor("eDP-1", 2)];
    let (sender, _receiver) = mpsc::channel();
    let mut dispatcher = Dispatcher::new(SelectionState::new(outputs, vec![]), sender);

    let capture = image::DynamicImage::new_rgb8(2, 3);
    let message = parse_screenshot(TargetKind::Output, 1, Ok::<_, ()>(capture)).unwrap();
    dispatcher.update(message);

    let layout = view(&dispatcher.state);
    assert!(!layout.items[0].has_thumbnail);
    assert!(layout.items[1].has_thumbnail);
}

#[test]
fn fan_out_covers_every_target_once() {
    let outputs = vec![descriptor("HDMI-1", 1), descriptor("eDP-1", 2)];
    let windows = vec![descriptor("editor", 10)];
    let state = SelectionState::new(outputs, windows);

    let requests = capture_requests(&state);
    assert_eq!(
        requests,
        vec![
            CaptureRequest { kind: TargetKind::Toplevel, index: 0 },
            CaptureRequest { kind: TargetKind::Output, index: 0 },
            CaptureRequest { kind: TargetKind::Output, index: 1 },
        ]
    );
}

#[test]
fn successful_capture_decodes_to_rgba_for_its_own_slot() {
    let capture = image::DynamicImage::new_rgb8(2, 3);
    let message = parse_screenshot(TargetKind::Output, 4, Ok::<_, ()>(capture));
    match message {
        Some(Message::OutputScreenshot(index, thumb)) => {
            assert_eq!(index, 4);
            assert_eq!(thumb.width, 2);
            assert_eq!(thumb.height, 3);
            assert_eq!(thumb.pixels.len(), 24);
        }
        other => panic!("expected an output screenshot event, got {:?}", other),
    }

    let window_capture = image::DynamicImage::new_rgba8(1, 1);
    let message = parse_screenshot(TargetKind::Toplevel, 0, Ok::<_, ()>(window_capture));
    assert!(matches!(message, Some(Message::ToplevelScreenshot(0, _))));
}

#[test]
fn oversized_backing_buffer_is_packed_to_the_grid() {
    // an RGBA image may be built over a backing buffer longer than its grid;
    // the thumbnail that comes out is cut to exactly four bytes per pixel
    let buffer = image::RgbaImage::from_raw(1, 1, vec![7u8; 8]).unwrap();
    let capture = image::DynamicImage::ImageRgba8(buffer);
    match parse_screenshot(TargetKind::Output, 0, Ok::<_, ()>(capture)) {
        Some(Message::OutputScreenshot(0, thumb)) => {
            assert_eq!(thumb.width, 1);
            assert_eq!(thumb.height, 1);
            assert_eq!(thumb.pixels, vec![7u8; 4]);
        }
        other => panic!("expected an output screenshot event, got {:?}", other),
    }
}

#[test]
fn empty_inventory_renders_and_schedules_nothing() {
    let state = SelectionState::new(vec![], vec![]);
    assert!(capture_requests(&state).is_empty());
    let layout = view(&state);
    assert!(layout.screens_button.active);
    assert!(layout.items.is_empty());
}

#[test]
fn failed_capture_produces_no_event() {
    let message = parse_screenshot(TargetKind::Output, 0, Err::<image::DynamicImage, String>(
        "unsupported".to_string(),
    ));
    assert_eq!(message, None);
}
