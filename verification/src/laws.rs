//! The session-wide guarantees of the update dispatcher, proved over the
//! one-step transition `step`: capture completions commute (any interleaving
//! of the scheduler's per-target completions fills the same thumbnails), a
//! present thumbnail never reverts, and exactly one pick terminates the
//! session, after which every event is a no-op.

use vstd::prelude::*;
use crate::capture::TargetKind;
use crate::dispatch::{is_capture, is_pick, msg_valid, step, Model};
use crate::message::Message;
use crate::state::{TargetDescriptor, Thumbnail};

verus! {

/// A whole event sequence folded into the dispatcher, front to back.
pub open spec fn apply_all(m: Model, events: Seq<Message>) -> Model
    decreases events.len(),
{
    if events.len() == 0 {
        m
    } else {
        apply_all(step(m, events[0]), events.skip(1))
    }
}

/// The slot a capture event addresses; pick and toggle events address none,
/// which the out-of-range position stands for.
pub open spec fn capture_slot(message: Message) -> (TargetKind, int) {
    match message {
        Message::OutputScreenshot(i, _) => (TargetKind::Output, i as int),
        Message::ToplevelScreenshot(i, _) => (TargetKind::Toplevel, i as int),
        _ => (TargetKind::Output, -1),
    }
}

/// The thumbnail a capture event carries.
pub open spec fn thumb_of(message: Message) -> Option<Thumbnail> {
    match message {
        Message::OutputScreenshot(_, t) => Some(t),
        Message::ToplevelScreenshot(_, t) => Some(t),
        _ => None,
    }
}

/// The slot at position `i` of the `kind` list.
pub open spec fn slot(m: Model, kind: TargetKind, i: int) -> (TargetDescriptor, Option<Thumbnail>) {
    match kind {
        TargetKind::Output => m.outputs[i],
        TargetKind::Toplevel => m.toplevels[i],
    }
}

/// A position that exists in the model's `kind` list.
pub open spec fn slot_in_range(m: Model, kind: TargetKind, i: int) -> bool {
    match kind {
        TargetKind::Output => 0 <= i < m.outputs.len(),
        TargetKind::Toplevel => 0 <= i < m.toplevels.len(),
    }
}

/// The thumbnail at a slot has arrived.
pub open spec fn slot_present(m: Model, kind: TargetKind, i: int) -> bool {
    slot(m, kind, i).1 is Some
}

/// Every event of the sequence is a capture completion.
pub open spec fn all_captures(events: Seq<Message>) -> bool {
    forall|j: int| 0 <= j < events.len() ==> is_capture(#[trigger] events[j])
}

/// Every event's index is valid against the model's snapshot. `step` never
/// changes the list lengths, so validity against the startup model carries
/// through the whole fold.
pub open spec fn events_valid(m: Model, events: Seq<Message>) -> bool {
    forall|j: int| 0 <= j < events.len() ==> msg_valid(m, #[trigger] events[j])
}

/// No two events of the sequence address the same slot — the scheduler fires
/// exactly one capture unit per target.
pub open spec fn distinct_slots(events: Seq<Message>) -> bool {
    forall|j: int, k: int|
        0 <= j < k < events.len() ==> capture_slot(#[trigger] events[j]) != capture_slot(
            #[trigger] events[k],
        )
}

/// The capture event for a slot that an interleaving settles on: the latest
/// one, since a later completion overwrites an earlier one.
pub open spec fn found_capture(events: Seq<Message>, kind: TargetKind, i: int) -> Option<Message>
    decreases events.len(),
{
    if events.len() == 0 {
        None
    } else if capture_slot(events.last()) == (kind, i) {
        Some(events.last())
    } else {
        found_capture(events.drop_last(), kind, i)
    }
}

/// One step never changes the snapshot lists' lengths or their descriptors.
pub proof fn lemma_step_keeps_snapshot(m: Model, message: Message)
    requires
        m.phase is Running ==> msg_valid(m, message),
    ensures
        step(m, message).outputs.len() == m.outputs.len(),
        step(m, message).toplevels.len() == m.toplevels.len(),
        forall|kind: TargetKind, i: int|
            slot_in_range(m, kind, i) ==> (#[trigger] slot(step(m, message), kind, i)).0 == slot(
                m,
                kind,
                i,
            ).0,
{
}

/// Folding is one step at a time: folding a sequence extended by one event is
/// folding the sequence, then stepping by that event.
pub proof fn lemma_apply_all_snoc(m: Model, events: Seq<Message>, e: Message)
    ensures
        apply_all(m, events.push(e)) == step(apply_all(m, events), e),
    decreases events.len(),
{
    if events.len() == 0 {
        assert(events.push(e)[0] == e);
        assert(events.push(e).skip(1) =~= Seq::<Message>::empty());
        assert(apply_all(m, events.push(e)) == apply_all(step(m, e), Seq::<Message>::empty()));
        assert(apply_all(step(m, e), Seq::<Message>::empty()) == step(m, e));
        assert(apply_all(m, events) == m);
    } else {
        assert(events.push(e)[0] == events[0]);
        assert(events.push(e).skip(1) =~= events.skip(1).push(e));
        assert(apply_all(m, events.push(e)) == apply_all(
            step(m, events[0]),
            events.skip(1).push(e),
        ));
        lemma_apply_all_snoc(step(m, events[0]), events.skip(1), e);
        assert(apply_all(m, events) == apply_all(step(m, events[0]), events.skip(1)));
    }
}

/// What any interleaving of capture completions does to a running dispatcher:
/// nothing but fill thumbnail slots. Phase, view mode, the committed result,
/// the list lengths and every descriptor stay; each slot ends at the
/// thumbnail of the completion that settled on it, or where it started when
/// none addressed it.
pub proof fn lemma_captures_fill_their_slots(m: Model, events: Seq<Message>)
    requires
        m.phase is Running,
        all_captures(events),
        events_valid(m, events),
    ensures
        apply_all(m, events).phase == m.phase,
        apply_all(m, events).mode == m.mode,
        apply_all(m, events).sent == m.sent,
        apply_all(m, events).outputs.len() == m.outputs.len(),
        apply_all(m, events).toplevels.len() == m.toplevels.len(),
        forall|kind: TargetKind, i: int|
            slot_in_range(m, kind, i) ==> (#[trigger] slot(apply_all(m, events), kind, i)).0
                == slot(m, kind, i).0,
        forall|kind: TargetKind, i: int|
            slot_in_range(m, kind, i) ==> (#[trigger] slot(apply_all(m, events), kind, i)).1 == (
            match found_capture(events, kind, i) {
                Some(e) => thumb_of(e),
                None => slot(m, kind, i).1,
            }),
    decreases events.len(),
{
    if events.len() == 0 {
    } else {
        let front = events.drop_last();
        let e = events.last();
        assert(front.push(e) =~= events);
        assert forall|j: int| 0 <= j < front.len() implies is_capture(#[trigger] front[j])
            && msg_valid(m, front[j]) by {
            assert(front[j] == events[j]);
        }
        lemma_captures_fill_their_slots(m, front);
        let mid = apply_all(m, front);
        lemma_apply_all_snoc(m, front, e);
        assert(apply_all(m, events) == step(mid, e));
        assert(is_capture(e) && msg_valid(m, e)) by {
            assert(events[events.len() - 1] == e);
        }
        assert forall|kind: TargetKind, i: int| slot_in_range(m, kind, i) implies (#[trigger] slot(
            apply_all(m, events),
            kind,
            i,
        )).0 == slot(m, kind, i).0 && slot(apply_all(m, events), kind, i).1 == (
        match found_capture(events, kind, i) {
            Some(ev) => thumb_of(ev),
            None => slot(m, kind, i).1,
        }) by {
            assert(mid.phase is Running);
            assert(slot(apply_all(m, front), kind, i).0 == slot(m, kind, i).0);
            assert(slot(apply_all(m, front), kind, i).1 == (match found_capture(front, kind, i) {
                Some(ev) => thumb_of(ev),
                None => slot(m, kind, i).1,
            }));
            if capture_slot(e) == (kind, i) {
                assert(found_capture(events, kind, i) == Some(e));
                match e {
                    Message::OutputScreenshot(i0, t0) => {
                        assert(kind == TargetKind::Output && i == i0 as int);
                        assert(i0 < m.outputs.len());
                        assert(step(mid, e).outputs == mid.outputs.update(
                            i0 as int,
                            (mid.outputs[i0 as int].0, Some(t0)),
                        ));
                        assert(slot(step(mid, e), kind, i) == (mid.outputs[i].0, Some(t0)));
                        assert(slot(mid, kind, i).0 == mid.outputs[i].0);
                    },
                    Message::ToplevelScreenshot(i0, t0) => {
                        assert(kind == TargetKind::Toplevel && i == i0 as int);
                        assert(i0 < m.toplevels.len());
                        assert(step(mid, e).toplevels == mid.toplevels.update(
                            i0 as int,
                            (mid.toplevels[i0 as int].0, Some(t0)),
                        ));
                        assert(slot(step(mid, e), kind, i) == (mid.toplevels[i].0, Some(t0)));
                        assert(slot(mid, kind, i).0 == mid.toplevels[i].0);
                    },
                    _ => {
                        assert(false);
                    },
                }
            } else {
                assert(found_capture(events, kind, i) == found_capture(front, kind, i));
                match e {
                    Message::OutputScreenshot(i0, t0) => {
                        assert(i0 < m.outputs.len());
                        assert(step(mid, e).outputs == mid.outputs.update(
                            i0 as int,
                            (mid.outputs[i0 as int].0, Some(t0)),
                        ));
                        assert(step(mid, e).toplevels == mid.toplevels);
                        if kind is Output {
                            assert(i != i0 as int);
                            assert(mid.outputs.update(
                                i0 as int,
                                (mid.outputs[i0 as int].0, Some(t0)),
                            )[i] == mid.outputs[i]);
                        }
                        assert(slot(step(mid, e), kind, i) == slot(mid, kind, i));
                    },
                    Message::ToplevelScreenshot(i0, t0) => {
                        assert(i0 < m.toplevels.len());
                        assert(step(mid, e).toplevels == mid.toplevels.update(
                            i0 as int,
                            (mid.toplevels[i0 as int].0, Some(t0)),
                        ));
                        assert(step(mid, e).outputs == mid.outputs);
                        if kind is Toplevel {
                            assert(i != i0 as int);
                            assert(mid.toplevels.update(
                                i0 as int,
                                (mid.toplevels[i0 as int].0, Some(t0)),
                            )[i] == mid.toplevels[i]);
                        }
                        assert(slot(step(mid, e), kind, i) == slot(mid, kind, i));
                    },
                    _ => {
                        assert(false);
                    },
                }
            }
        }
    }
}

/// Two interleavings of the same per-target capture completions leave the
/// dispatcher in the same state: completions commute.
pub proof fn lemma_capture_order_immaterial(m: Model, a: Seq<Message>, b: Seq<Message>)
    requires
        m.phase is Running,
        all_captures(a),
        all_captures(b),
        events_valid(m, a),
        events_valid(m, b),
        distinct_slots(a),
        distinct_slots(b),
        a.to_multiset() == b.to_multiset(),
    ensures
        apply_all(m, a) == apply_all(m, b),
{
    broadcast use vstd::seq_lib::group_to_multiset_ensures;

    lemma_captures_fill_their_slots(m, a);
    lemma_captures_fill_their_slots(m, b);
    let fa = apply_all(m, a);
    let fb = apply_all(m, b);
    assert forall|kind: TargetKind, i: int| slot_in_range(m, kind, i) implies found_capture(
        a,
        kind,
        i,
    ) == found_capture(b, kind, i) by {
        lemma_found_agrees(a, b, kind, i);
    }
    assert forall|i: int| 0 <= i < fa.outputs.len() implies fa.outputs[i] == fb.outputs[i] by {
        assert(slot_in_range(m, TargetKind::Output, i));
        assert(slot(fa, TargetKind::Output, i).0 == slot(fb, TargetKind::Output, i).0);
        assert(slot(fa, TargetKind::Output, i).1 == slot(fb, TargetKind::Output, i).1);
        assert(fa.outputs[i] =~= fb.outputs[i]);
    }
    assert forall|i: int| 0 <= i < fa.toplevels.len() implies fa.toplevels[i] == fb.toplevels[i] by {
        assert(slot_in_range(m, TargetKind::Toplevel, i));
        assert(slot(fa, TargetKind::Toplevel, i).0 == slot(fb, TargetKind::Toplevel, i).0);
        assert(slot(fa, TargetKind::Toplevel, i).1 == slot(fb, TargetKind::Toplevel, i).1);
        assert(fa.toplevels[i] =~= fb.toplevels[i]);
    }
    assert(fa.outputs =~= fb.outputs);
    assert(fa.toplevels =~= fb.toplevels);
    assert(fa =~= fb);
}

/// What `found_capture` finds is an element of the sequence addressing that
/// slot; when it finds nothing, no element addresses the slot.
proof fn lemma_found_is_member(events: Seq<Message>, kind: TargetKind, i: int)
    ensures
        match found_capture(events, kind, i) {
            Some(e) => events.contains(e) && capture_slot(e) == (kind, i),
            None => forall|j: int|
                0 <= j < events.len() ==> capture_slot(#[trigger] events[j]) != (kind, i),
        },
    decreases events.len(),
{
    if events.len() == 0 {
    } else if capture_slot(events.last()) == (kind, i) {
        assert(events[events.len() - 1] == events.last());
    } else {
        lemma_found_is_member(events.drop_last(), kind, i);
        match found_capture(events.drop_last(), kind, i) {
            Some(e) => {
                let j = choose|j: int|
                    0 <= j < events.drop_last().len() && events.drop_last()[j] == e;
                assert(events[j] == e);
            },
            None => {
                assert forall|j: int| 0 <= j < events.len() implies capture_slot(
                    #[trigger] events[j],
                ) != (kind, i) by {
                    if j < events.len() - 1 {
                        assert(events.drop_last()[j] == events[j]);
                    }
                }
            },
        }
    }
}

/// In a sequence whose events address pairwise distinct slots, the element
/// addressing a slot is the one `found_capture` settles on.
proof fn lemma_member_is_found(events: Seq<Message>, kind: TargetKind, i: int, e: Message)
    requires
        distinct_slots(events),
        events.contains(e),
        capture_slot(e) == (kind, i),
    ensures
        found_capture(events, kind, i) == Some(e),
    decreases events.len(),
{
    let j = choose|j: int| 0 <= j < events.len() && events[j] == e;
    if capture_slot(events.last()) == (kind, i) {
        assert(events[events.len() - 1] == events.last());
        assert(j == events.len() - 1);
    } else {
        assert(j < events.len() - 1);
        assert(events.drop_last()[j] == e);
        assert forall|p: int, q: int|
            0 <= p < q < events.drop_last().len() implies capture_slot(
            #[trigger] events.drop_last()[p],
        ) != capture_slot(#[trigger] events.drop_last()[q]) by {
            assert(events.drop_last()[p] == events[p]);
            assert(events.drop_last()[q] == events[q]);
        }
        lemma_member_is_found(events.drop_last(), kind, i, e);
    }
}

/// Multiset-equal sequences of pairwise-distinct capture completions settle
/// every slot on the same completion.
proof fn lemma_found_agrees(a: Seq<Message>, b: Seq<Message>, kind: TargetKind, i: int)
    requires
        distinct_slots(a),
        distinct_slots(b),
        a.to_multiset() == b.to_multiset(),
    ensures
        found_capture(a, kind, i) == found_capture(b, kind, i),
{
    broadcast use vstd::seq_lib::group_to_multiset_ensures;

    lemma_found_is_member(a, kind, i);
    lemma_found_is_member(b, kind, i);
    match found_capture(a, kind, i) {
        Some(e) => {
            assert(a.to_multiset().count(e) > 0);
            assert(b.contains(e));
            lemma_member_is_found(b, kind, i, e);
        },
        None => {
            match found_capture(b, kind, i) {
                Some(e) => {
                    assert(b.to_multiset().count(e) > 0);
                    assert(a.contains(e));
                    let j = choose|j: int| 0 <= j < a.len() && a[j] == e;
                    assert(capture_slot(a[j]) == (kind, i));
                    assert(false);
                },
                None => {},
            }
        },
    }
}

/// Once a thumbnail is present, no event reverts it: a capture completion can
/// only fill a slot with another present thumbnail, and nothing else touches
/// the lists.
pub proof fn lemma_thumbnail_monotonic(m: Model, message: Message, kind: TargetKind, i: int)
    requires
        m.phase is Running ==> msg_valid(m, message),
        slot_in_range(m, kind, i),
        slot_present(m, kind, i),
    ensures
        slot_present(step(m, message), kind, i),
{
}

/// Monotonicity over a whole session: a present thumbnail survives every
/// later event, whatever mix of toggles, completions and picks arrives.
pub proof fn lemma_thumbnail_monotonic_all(m: Model, events: Seq<Message>, kind: TargetKind, i: int)
    requires
        forall|j: int| 0 <= j < events.len() ==> msg_valid(m, #[trigger] events[j]),
        slot_in_range(m, kind, i),
        slot_present(m, kind, i),
    ensures
        slot_present(apply_all(m, events), kind, i),
    decreases events.len(),
{
    if events.len() > 0 {
        let m1 = step(m, events[0]);
        lemma_step_keeps_snapshot(m, events[0]);
        lemma_thumbnail_monotonic(m, events[0], kind, i);
        assert forall|j: int| 0 <= j < events.skip(1).len() implies msg_valid(
            m1,
            #[trigger] events.skip(1)[j],
        ) by {
            assert(events.skip(1)[j] == events[j + 1]);
        }
        lemma_thumbnail_monotonic_all(m1, events.skip(1), kind, i);
    }
}

/// A dispatcher that has not terminated has committed nothing.
pub open spec fn inv(m: Model) -> bool {
    m.phase is Running ==> m.sent is None
}

/// Exactly one pick resolves the session: while running nothing has been
/// committed; a valid pick terminates and commits a result; the committed
/// result changes only at that transition; and a terminated dispatcher
/// absorbs every further event unchanged — a late completion or a second
/// pick is a no-op.
pub proof fn lemma_single_commit(m: Model, message: Message)
    requires
        inv(m),
    ensures
        inv(step(m, message)),
        m.phase is Terminated ==> step(m, message) == m,
        m.phase is Running && is_pick(message) ==> step(m, message).phase is Terminated && step(
            m,
            message,
        ).sent is Some,
        step(m, message).sent != m.sent ==> m.phase is Running && is_pick(message) && step(
            m,
            message,
        ).phase is Terminated,
{
}

} // verus!
