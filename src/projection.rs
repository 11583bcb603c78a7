use vstd::prelude::*;

use crate::decimal::{decimal, decimal_string};
use crate::state::{Classification, DaemonState, MonitorState, WorkspaceState, WorkspaceView};

verus! {

/// Why a daemon state gives no slots.
#[derive(Clone, Copy, Debug, PartialEq, Eq, Structural)]
pub enum ProjectError {
    /// The daemon has no focused monitor at the moment.
    NoFocusedMonitor,
}

/// Whether the daemon's focused-monitor index names one of its monitors.
pub open spec fn has_focused_monitor(state: DaemonState) -> bool {
    state.focused_monitor < state.monitors@.len()
}

/// The focused monitor, where there is one.
pub open spec fn focused_monitor(state: DaemonState) -> MonitorState
    recommends
        has_focused_monitor(state),
{
    state.monitors@[state.focused_monitor as int]
}

/// The label of the workspace at index `i`: its own name, else `i + 1` in
/// decimal.
pub open spec fn slot_name(ws: WorkspaceState, i: int) -> Seq<char> {
    match ws.name {
        Some(n) => n@,
        None => decimal((i + 1) as nat),
    }
}

/// How the workspace at index `i` is shown when `focused` is the focused
/// index.
pub open spec fn slot_class(ws: WorkspaceState, i: int, focused: int) -> Classification {
    if i == focused {
        Classification::Focused
    } else if ws.is_empty {
        Classification::Empty
    } else {
        Classification::NonEmpty
    }
}

/// The slots of a monitor, one per workspace, in the daemon's order.
pub open spec fn monitor_slots(m: MonitorState) -> Seq<(Seq<char>, Classification)> {
    Seq::new(
        m.workspaces@.len(),
        |i: int| (slot_name(m.workspaces@[i], i), slot_class(m.workspaces@[i], i, m.focused_workspace as int)),
    )
}

/// The slots of a daemon state, or `None` without a focused monitor.
pub open spec fn projected(state: DaemonState) -> Option<Seq<(Seq<char>, Classification)>> {
    if has_focused_monitor(state) {
        Some(monitor_slots(focused_monitor(state)))
    } else {
        None
    }
}

/// The abstract value of a list of slots.
pub open spec fn slots_view(v: Seq<WorkspaceView>) -> Seq<(Seq<char>, Classification)> {
    v.map_values(|w: WorkspaceView| w@)
}

/// Whether `r` is what the projection gives for `state`.
pub open spec fn projection_of(state: DaemonState, r: Result<Vec<WorkspaceView>, ProjectError>) -> bool {
    match projected(state) {
        Some(slots) => r matches Ok(v) && slots_view(v@) == slots,
        None => r == Err::<Vec<WorkspaceView>, ProjectError>(ProjectError::NoFocusedMonitor),
    }
}

/// Reduces the daemon's state to the slots of its focused monitor: one per
/// workspace, in order, named by the daemon or by position, and classified
/// by the monitor's focused index and the workspace's occupancy.
pub fn workspaces_from_state(state: &DaemonState) -> (r: Result<Vec<WorkspaceView>, ProjectError>)
    ensures
        projection_of(*state, r),
{
    if state.focused_monitor >= state.monitors.len() {
        return Err(ProjectError::NoFocusedMonitor);
    }
    let m = &state.monitors[state.focused_monitor];
    let mut out: Vec<WorkspaceView> = Vec::new();
    let mut i: usize = 0;
    while i < m.workspaces.len()
        invariant
            i <= m.workspaces@.len(),
            out@.len() == i,
            forall|j: int| 0 <= j < i ==> out@[j]@ == #[trigger] monitor_slots(*m)[j],
        decreases m.workspaces@.len() - i,
    {
        let ws = &m.workspaces[i];
        let name = match &ws.name {
            Some(n) => n.clone(),
            None => decimal_string(i + 1),
        };
        let classification = if i == m.focused_workspace {
            Classification::Focused
        } else if ws.is_empty {
            Classification::Empty
        } else {
            Classification::NonEmpty
        };
        out.push(WorkspaceView { name, classification });
        i += 1;
    }
    assert(slots_view(out@) =~= monitor_slots(*m));
    Ok(out)
}

/// The abstract value of a projection's result.
pub open spec fn projection_view(r: Result<Vec<WorkspaceView>, ProjectError>) -> Result<
    Seq<(Seq<char>, Classification)>,
    ProjectError,
> {
    match r {
        Ok(v) => Ok(slots_view(v@)),
        Err(e) => Err(e),
    }
}

/// Projecting a state with a focused monitor twice gives the same slots both
/// times: the result depends on the state alone.
pub proof fn lemma_projection_deterministic(
    state: DaemonState,
    first: Result<Vec<WorkspaceView>, ProjectError>,
    second: Result<Vec<WorkspaceView>, ProjectError>,
)
    requires
        has_focused_monitor(state),
        projection_of(state, first),
        projection_of(state, second),
    ensures
        first is Ok,
        second is Ok,
        projection_view(first) == projection_view(second),
{
}

/// Where the focused monitor's focused index names one of its workspaces,
/// exactly that slot is focused; where it has no workspace, no slot is.
pub proof fn lemma_focus_exclusive(state: DaemonState)
    requires
        has_focused_monitor(state),
        focused_monitor(state).workspaces@.len() == 0 || focused_monitor(state).focused_workspace
            < focused_monitor(state).workspaces@.len(),
    ensures
        ({
            let m = focused_monitor(state);
            let slots = monitor_slots(m);
            &&& slots.len() == 0 || slots[m.focused_workspace as int].1 == Classification::Focused
            &&& forall|i: int|
                0 <= i < slots.len() && #[trigger] slots[i].1 == Classification::Focused ==> i
                    == m.focused_workspace
        }),
{
}

/// A workspace at index `i` that the daemon gives no name is labelled with
/// `i + 1` in decimal.
pub proof fn lemma_naming_fallback(state: DaemonState, i: int)
    requires
        has_focused_monitor(state),
        0 <= i < focused_monitor(state).workspaces@.len(),
        focused_monitor(state).workspaces@[i].name is None,
    ensures
        monitor_slots(focused_monitor(state))[i].0 == decimal((i + 1) as nat),
{
}

} // verus!
