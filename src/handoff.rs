use vstd::prelude::*;

use crate::projection::slots_view;
use crate::state::{Classification, WorkspaceView};

verus! {

/// A snapshot on its way from the session's worker to the display. It is
/// moved across, never shared: whoever holds it owns the slots.
#[derive(Debug)]
pub struct UpdateWorkspaces {
    pub workspaces: Vec<WorkspaceView>,
}

impl View for UpdateWorkspaces {
    type V = Seq<(Seq<char>, Classification)>;

    open spec fn view(&self) -> Seq<(Seq<char>, Classification)> {
        slots_view(self.workspaces@)
    }
}

impl UpdateWorkspaces {
    /// Packs a snapshot for delivery.
    pub fn new(workspaces: Vec<WorkspaceView>) -> (r: Self)
        ensures
            r.workspaces == workspaces,
    {
        UpdateWorkspaces { workspaces }
    }

    /// Unpacks a delivered snapshot; the receiver owns it from here on.
    pub fn into_workspaces(self) -> (r: Vec<WorkspaceView>)
        ensures
            r == self.workspaces,
    {
        self.workspaces
    }
}

} // verus!
