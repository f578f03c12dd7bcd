//! The one-shot, cross-thread result handoff: the dispatcher on the UI task
//! thread sends exactly one selection, and the launching thread blocks on a
//! bounded wait that falls back to `GUISelection::Failed` when nothing
//! arrives in time — a timed-out or abandoned session is a normal outcome,
//! not an error.

use vstd::prelude::*;
use crate::gui_selector::GUISelection;

verus! {

/// How long the launching thread waits for a result before it gives up.
pub const SELECTION_TIMEOUT_MS: u64 = 1000;

#[verifier::external_type_specification]
#[verifier::external_body]
#[verifier::reject_recursive_types(T)]
pub struct ExSender<T>(std::sync::mpsc::Sender<T>);

#[verifier::external_type_specification]
#[verifier::external_body]
#[verifier::reject_recursive_types(T)]
pub struct ExReceiver<T>(std::sync::mpsc::Receiver<T>);

/// Relies on std::sync::mpsc::Sender::send: hands the value to the receiver's
/// queue when the receiver still exists. The flag reports only whether it was
/// taken; a refused send is swallowed by the callers, as the UI is about to
/// close either way.
#[verifier::external_body]
pub(crate) fn send_selection(
    sender: &std::sync::mpsc::Sender<GUISelection>,
    result: GUISelection,
) -> (delivered: bool) {
    sender.send(result).is_ok()
}

/// Relies on core::time::Duration::from_millis.
#[verifier::external_body]
fn wait_ceiling(timeout_ms: u64) -> core::time::Duration {
    core::time::Duration::from_millis(timeout_ms)
}

/// Relies on std::sync::mpsc::Receiver::recv_timeout: a value some sender
/// sent, or nothing once the wait elapses or every sender is gone without
/// sending. Which of these happens depends on timing, so nothing more is
/// promised of the outcome.
#[verifier::external_body]
fn recv_selection(
    receiver: &std::sync::mpsc::Receiver<GUISelection>,
    wait: core::time::Duration,
) -> (received: Option<GUISelection>) {
    receiver.recv_timeout(wait).ok()
}

/// What a finished wait resolves to: the received selection if one arrived,
/// and the `Failed` fallback otherwise.
pub open spec fn resolved(received: Option<GUISelection>) -> GUISelection {
    match received {
        Some(result) => result,
        None => GUISelection::Failed,
    }
}

/// Resolves the outcome of the bounded wait to the terminal value handed to
/// the caller: a received selection passes through unchanged, an empty wait
/// becomes `Failed`.
pub fn resolve_outcome(received: Option<GUISelection>) -> (result: GUISelection)
    ensures
        result == resolved(received),
{
    match received {
        Some(result) => result,
        None => GUISelection::Failed,
    }
}

/// Blocks for at most `timeout_ms` milliseconds on the handoff channel and
/// resolves whatever the wait produced; whether a value arrives in time
/// depends on the sending side, so the result is pinned only as a function of
/// the wait's outcome, by `resolve_outcome`.
pub fn await_selection(
    receiver: &std::sync::mpsc::Receiver<GUISelection>,
    timeout_ms: u64,
) -> (result: GUISelection) {
    let wait = wait_ceiling(timeout_ms);
    resolve_outcome(recv_selection(receiver, wait))
}

} // verus!
