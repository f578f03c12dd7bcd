//! The in-memory selection model: target descriptors, thumbnail slots, the
//! view mode toggle, and the state snapshot taken once at startup.

use vstd::prelude::*;

verus! {

/// Identifying and display metadata for one selectable target, fixed at
/// inventory time. `id` is whatever identity the compositor client needs to
/// re-request a capture or to act on the final choice; the core only carries
/// it through.
#[derive(Clone, PartialEq, Eq, Debug)]
pub struct TargetDescriptor {
    pub label: String,
    pub id: u64,
}

/// A decoded RGBA bitmap attached to a target once its capture completed.
#[derive(Clone, PartialEq, Eq, Debug)]
pub struct Thumbnail {
    pub width: u32,
    pub height: u32,
    pub pixels: Vec<u8>,
}

impl Thumbnail {
    /// Four bytes per pixel: the buffer is tightly packed RGBA.
    pub open spec fn wf(self) -> bool {
        self.pixels@.len() == 4 * ((self.width as nat) * (self.height as nat))
    }
}

/// Which of the two lists is currently rendered.
#[derive(Clone, Copy, PartialEq, Eq, Structural, Debug)]
pub enum ViewMode {
    Screens,
    Windows,
}

/// The selection state: the view mode and the two inventory snapshot lists,
/// each entry a descriptor beside its optional thumbnail. List order is fixed
/// at construction and the lists never grow or shrink afterwards; only the
/// thumbnail slots fill in.
#[derive(PartialEq, Eq, Debug)]
pub struct SelectionState {
    pub mode: ViewMode,
    pub toplevels: Vec<(TargetDescriptor, Option<Thumbnail>)>,
    pub outputs: Vec<(TargetDescriptor, Option<Thumbnail>)>,
}

impl SelectionState {
    /// Builds the snapshot from the inventory: every listed target in its
    /// given order, every thumbnail slot still absent, screens shown first.
    pub fn new(outputs: Vec<TargetDescriptor>, toplevels: Vec<TargetDescriptor>) -> (s: Self)
        ensures
            s.mode == ViewMode::Screens,
            s.outputs@.len() == outputs@.len(),
            s.toplevels@.len() == toplevels@.len(),
            forall|i: int|
                0 <= i < outputs@.len() ==> s.outputs@[i] == (
                outputs@[i],
                Option::<Thumbnail>::None,
                ),
            forall|i: int|
                0 <= i < toplevels@.len() ==> s.toplevels@[i] == (
                toplevels@[i],
                Option::<Thumbnail>::None,
                ),
    {
        SelectionState {
            mode: ViewMode::Screens,
            toplevels: attach_empty_slots(toplevels),
            outputs: attach_empty_slots(outputs),
        }
    }
}

/// Pairs each descriptor with an absent thumbnail slot, keeping the order.
fn attach_empty_slots(targets: Vec<TargetDescriptor>) -> (slots: Vec<
    (TargetDescriptor, Option<Thumbnail>),
>)
    ensures
        slots@.len() == targets@.len(),
        forall|i: int|
            0 <= i < targets@.len() ==> slots@[i] == (targets@[i], Option::<Thumbnail>::None),
{
    let mut rest = targets;
    let mut slots: Vec<(TargetDescriptor, Option<Thumbnail>)> = Vec::new();
    let ghost all = rest@;
    while rest.len() > 0
        invariant
            slots@.len() + rest@.len() == all.len(),
            rest@ == all.skip(slots@.len() as int),
            forall|i: int| 0 <= i < slots@.len() ==> slots@[i] == (all[i], Option::<Thumbnail>::None),
        decreases rest@.len(),
    {
        let target = rest.remove(0);
        assert(target == all[slots@.len() as int]);
        slots.push((target, None));
        assert(rest@ =~= all.skip(slots@.len() as int));
    }
    slots
}

} // verus!
