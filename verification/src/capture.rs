//! The capture scheduler's verifiable half: the fan-out plan (one unit of
//! work per enumerated target, addressed by list position) and the conversion
//! of one unit's outcome into its state-update event. The capture call itself
//! is the compositor client's; a failed or unsupported capture produces no
//! event at all, leaving that thumbnail slot absent.

use vstd::prelude::*;
use crate::message::Message;
use crate::state::{SelectionState, Thumbnail};

verus! {

/// Which snapshot list a capture unit works for.
#[derive(Clone, Copy, PartialEq, Eq, Structural, Debug)]
pub enum TargetKind {
    Output,
    Toplevel,
}

/// One independent unit of capture work: capture the target at `index` of
/// the `kind` list. The index addresses the snapshot taken at construction,
/// so the dispatcher can apply the completion by direct lookup.
#[derive(Clone, Copy, PartialEq, Eq, Structural, Debug)]
pub struct CaptureRequest {
    pub kind: TargetKind,
    pub index: usize,
}

/// The full fan-out for a snapshot: one request per toplevel, then one per
/// output, each addressing its own position.
pub fn capture_requests(state: &SelectionState) -> (requests: Vec<CaptureRequest>)
    ensures
        requests@.len() == state.toplevels@.len() + state.outputs@.len(),
        forall|i: int|
            0 <= i < state.toplevels@.len() ==> requests@[i] == (CaptureRequest {
                kind: TargetKind::Toplevel,
                index: i as usize,
            }),
        forall|i: int|
            state.toplevels@.len() <= i < requests@.len() ==> requests@[i] == (CaptureRequest {
                kind: TargetKind::Output,
                index: (i - state.toplevels@.len()) as usize,
            }),
{
    let mut requests: Vec<CaptureRequest> = Vec::new();
    let mut i: usize = 0;
    while i < state.toplevels.len()
        invariant
            i <= state.toplevels@.len(),
            requests@.len() == i,
            forall|j: int|
                0 <= j < i ==> requests@[j] == (CaptureRequest {
                    kind: TargetKind::Toplevel,
                    index: j as usize,
                }),
        decreases state.toplevels@.len() - i,
    {
        requests.push(CaptureRequest { kind: TargetKind::Toplevel, index: i });
        i += 1;
    }
    let mut k: usize = 0;
    while k < state.outputs.len()
        invariant
            k <= state.outputs@.len(),
            requests@.len() == state.toplevels@.len() + k,
            forall|j: int|
                0 <= j < state.toplevels@.len() ==> requests@[j] == (CaptureRequest {
                    kind: TargetKind::Toplevel,
                    index: j as usize,
                }),
            forall|j: int|
                state.toplevels@.len() <= j < requests@.len() ==> requests@[j] == (CaptureRequest {
                    kind: TargetKind::Output,
                    index: (j - state.toplevels@.len()) as usize,
                }),
        decreases state.outputs@.len() - k,
    {
        requests.push(CaptureRequest { kind: TargetKind::Output, index: k });
        k += 1;
    }
    requests
}

#[verifier::external_type_specification]
#[verifier::external_body]
pub struct ExDynamicImage(image::DynamicImage);

/// Relies on image::DynamicImage::to_rgba8: a copy of the image as an RGBA
/// buffer, four bytes per pixel, carrying its own width and height; width,
/// height and the raw buffer are read off that copy. The buffer covers the
/// whole pixel grid but is not promised to end there: an image built over a
/// caller-supplied backing buffer is only checked to be at least large
/// enough, and the copy keeps such a buffer verbatim, so no more than the
/// lower bound is claimed. `pack_pixels` cuts the grid out of it.
#[verifier::external_body]
fn decode_rgba(img: &image::DynamicImage) -> (thumbnail: Thumbnail)
    ensures
        thumbnail.pixels@.len() >= 4 * ((thumbnail.width as nat) * (thumbnail.height as nat)),
{
    let buffer = img.to_rgba8();
    let width = buffer.width();
    let height = buffer.height();
    Thumbnail { width, height, pixels: buffer.into_raw() }
}

/// Cuts a decoded buffer down to exactly four bytes per pixel: whatever slack
/// the backing buffer carried past the grid is dropped, so the thumbnail the
/// state holds is tightly packed.
fn pack_pixels(thumbnail: Thumbnail) -> (packed: Thumbnail)
    requires
        thumbnail.pixels@.len() >= 4 * ((thumbnail.width as nat) * (thumbnail.height as nat)),
    ensures
        packed.wf(),
        packed.width == thumbnail.width,
        packed.height == thumbnail.height,
        packed.pixels@ == thumbnail.pixels@.subrange(
            0,
            (4 * ((thumbnail.width as nat) * (thumbnail.height as nat))) as int,
        ),
{
    let Thumbnail { width, height, pixels } = thumbnail;
    let mut pixels = pixels;
    // the buffer's length is a usize and bounds the grid, so the products
    // below stay in range
    let count = pixels.len();
    proof {
        assert(4 * ((width as nat) * (height as nat)) <= count as nat);
    }
    let area: usize = (width as usize) * (height as usize);
    let needed: usize = 4 * area;
    pixels.truncate(needed);
    Thumbnail { width, height, pixels }
}

/// The message a completed capture unit produces for its slot.
pub open spec fn screenshot_message(kind: TargetKind, index: usize, thumbnail: Thumbnail) -> Message {
    match kind {
        TargetKind::Output => Message::OutputScreenshot(index, thumbnail),
        TargetKind::Toplevel => Message::ToplevelScreenshot(index, thumbnail),
    }
}

/// Converts one capture unit's outcome into its event: a captured image is
/// decoded and becomes the screenshot message for exactly the unit's own
/// slot, and a failure of any kind produces no event, so the slot stays
/// absent and nothing is escalated.
pub fn parse_screenshot<E>(
    kind: TargetKind,
    index: usize,
    capture: Result<image::DynamicImage, E>,
) -> (message: Option<Message>)
    ensures
        message is Some <==> capture is Ok,
        message matches Some(m) ==> exists|t: Thumbnail|
            #[trigger] screenshot_message(kind, index, t) == m && t.wf(),
{
    match capture {
        Ok(img) => {
            let thumbnail = pack_pixels(decode_rgba(&img));
            let message = match kind {
                TargetKind::Output => Message::OutputScreenshot(index, thumbnail),
                TargetKind::Toplevel => Message::ToplevelScreenshot(index, thumbnail),
            };
            proof {
                assert(screenshot_message(kind, index, thumbnail) == message);
            }
            Some(message)
        },
        Err(_) => None,
    }
}

} // verus!
