use vstd::prelude::*;

use crate::projection::slots_view;
use crate::state::{Classification, WorkspaceView};

verus! {

/// A displayed slot with what changed in it at the last update. The flags
/// hold until the next repaint has used them.
#[derive(Clone, Debug)]
pub struct ChangedWorkspace {
    pub data: WorkspaceView,
    pub name_changed: bool,
    pub state_changed: bool,
}

/// The slots on display, in order.
#[derive(Clone, Debug)]
pub struct Workspaces {
    pub data: Vec<ChangedWorkspace>,
}

/// The slots held by a displayed model.
pub open spec fn displayed_slots(d: Seq<ChangedWorkspace>) -> Seq<(Seq<char>, Classification)> {
    d.map_values(|c: ChangedWorkspace| c.data@)
}

/// The change flags of a displayed model, `(name_changed, state_changed)` per
/// slot.
pub open spec fn change_flags(d: Seq<ChangedWorkspace>) -> Seq<(bool, bool)> {
    d.map_values(|c: ChangedWorkspace| (c.name_changed, c.state_changed))
}

/// The flags that an update from `prev` to `new` sets. With another slot
/// count every slot counts as changed in both respects; with the same count
/// each slot is compared with the one at its index.
pub open spec fn diff_flags(
    prev: Seq<(Seq<char>, Classification)>,
    new: Seq<(Seq<char>, Classification)>,
) -> Seq<(bool, bool)> {
    if prev.len() != new.len() {
        Seq::new(new.len(), |i: int| (true, true))
    } else {
        Seq::new(new.len(), |i: int| (prev[i].0 != new[i].0, prev[i].1 != new[i].1))
    }
}

/// Whether an update from `prev` to `new` changes anything on display: the
/// slot count, or a label or classification of some slot.
pub open spec fn display_changed(
    prev: Seq<(Seq<char>, Classification)>,
    new: Seq<(Seq<char>, Classification)>,
) -> bool {
    prev.len() != new.len() || exists|i: int| 0 <= i < new.len() && #[trigger] new[i] != prev[i]
}

/// Whether some slot of the model has its name flag set.
pub open spec fn any_name_changed(d: Seq<ChangedWorkspace>) -> bool {
    exists|i: int| 0 <= i < d.len() && #[trigger] d[i].name_changed
}

/// When the slot count changes, every slot of the new model is marked with a
/// changed name and a changed state, and the update counts as a change.
pub proof fn lemma_structural_change_marks_all(
    prev: Seq<(Seq<char>, Classification)>,
    new: Seq<(Seq<char>, Classification)>,
)
    requires
        prev.len() != new.len(),
    ensures
        diff_flags(prev, new).len() == new.len(),
        forall|i: int| 0 <= i < new.len() ==> #[trigger] diff_flags(prev, new)[i] == (true, true),
        display_changed(prev, new),
{
}

impl Workspaces {
    /// An empty displayed model.
    pub fn new() -> (r: Self)
        ensures
            r.data@.len() == 0,
    {
        Workspaces { data: Vec::new() }
    }

    /// Takes a new snapshot into the model and reports whether anything on
    /// display changed. With the same slot count the slots are replaced one by
    /// one and each flag says whether that part of the slot differs from
    /// before; with another count the model is replaced whole and every flag
    /// is set.
    pub fn try_update(&mut self, workspaces: Vec<WorkspaceView>) -> (changed: bool)
        ensures
            displayed_slots(final(self).data@) == slots_view(workspaces@),
            change_flags(final(self).data@) == diff_flags(
                displayed_slots(old(self).data@),
                slots_view(workspaces@),
            ),
            changed == display_changed(displayed_slots(old(self).data@), slots_view(workspaces@)),
    {
        let ghost prev = displayed_slots(self.data@);
        let ghost new = slots_view(workspaces@);
        if self.data.len() == workspaces.len() {
            let mut changed = false;
            let mut i: usize = 0;
            while i < workspaces.len()
                invariant
                    self.data@.len() == workspaces@.len(),
                    prev.len() == workspaces@.len(),
                    new == slots_view(workspaces@),
                    i <= workspaces@.len(),
                    forall|j: int| i <= j < self.data@.len() ==> #[trigger] self.data@[j].data@ == prev[j],
                    forall|j: int| 0 <= j < i ==> #[trigger] self.data@[j].data@ == new[j],
                    forall|j: int|
                        0 <= j < i ==> (#[trigger] self.data@[j]).name_changed == (prev[j].0 != new[j].0)
                            && self.data@[j].state_changed == (prev[j].1 != new[j].1),
                    changed == exists|j: int| 0 <= j < i && #[trigger] new[j] != prev[j],
                decreases workspaces@.len() - i,
            {
                let ws = &workspaces[i];
                let name_changed = self.data[i].data.name != ws.name;
                let state_changed = self.data[i].data.classification != ws.classification;
                proof {
                    assert(prev[i as int] == self.data@[i as int].data@);
                    assert(new[i as int] == ws@);
                }
                let slot = ChangedWorkspace {
                    data: WorkspaceView { name: ws.name.clone(), classification: ws.classification },
                    name_changed,
                    state_changed,
                };
                self.data.set(i, slot);
                if name_changed || state_changed {
                    changed = true;
                }
                proof {
                    assert((new[i as int] != prev[i as int]) == (name_changed || state_changed));
                    if !changed {
                        assert forall|j: int| 0 <= j < i + 1 implies !(#[trigger] new[j] != prev[j]) by {
                            if j < i {
                            }
                        }
                    }
                }
                i += 1;
            }
            assert(displayed_slots(self.data@) =~= new);
            assert(change_flags(self.data@) =~= diff_flags(prev, new));
            changed
        } else {
            let mut data: Vec<ChangedWorkspace> = Vec::new();
            let mut i: usize = 0;
            while i < workspaces.len()
                invariant
                    new == slots_view(workspaces@),
                    i <= workspaces@.len(),
                    data@.len() == i,
                    forall|j: int| 0 <= j < i ==> #[trigger] data@[j].data@ == new[j],
                    forall|j: int| 0 <= j < i ==> (#[trigger] data@[j]).name_changed && data@[j].state_changed,
                decreases workspaces@.len() - i,
            {
                let ws = &workspaces[i];
                data.push(ChangedWorkspace {
                    data: WorkspaceView { name: ws.name.clone(), classification: ws.classification },
                    name_changed: true,
                    state_changed: true,
                });
                i += 1;
            }
            self.data = data;
            assert(displayed_slots(self.data@) =~= new);
            assert(change_flags(self.data@) =~= diff_flags(prev, new));
            true
        }
    }

    /// Whether some slot's label changed at the last update, so that the
    /// layout has to be measured again rather than only redrawn.
    pub fn name_changed(&self) -> (r: bool)
        ensures
            r == any_name_changed(self.data@),
    {
        let mut i: usize = 0;
        while i < self.data.len()
            invariant
                i <= self.data@.len(),
                forall|j: int| 0 <= j < i ==> !(#[trigger] self.data@[j]).name_changed,
            decreases self.data@.len() - i,
        {
            if self.data[i].name_changed {
                return true;
            }
            i += 1;
        }
        false
    }
}

} // verus!
