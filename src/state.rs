use vstd::prelude::*;

verus! {

/// How a workspace slot is shown. The kinds exclude each other; focus takes
/// precedence over emptiness.
#[derive(Clone, Copy, Debug, PartialEq, Eq, Structural)]
pub enum Classification {
    Empty,
    NonEmpty,
    Focused,
}

/// One visible workspace slot: its label and how it is shown.
#[derive(Clone, Debug)]
pub struct WorkspaceView {
    pub name: String,
    pub classification: Classification,
}

impl View for WorkspaceView {
    type V = (Seq<char>, Classification);

    open spec fn view(&self) -> (Seq<char>, Classification) {
        (self.name@, self.classification)
    }
}

/// A workspace as the daemon reports it.
#[derive(Clone, Debug)]
pub struct WorkspaceState {
    /// The name the daemon gives it, if any.
    pub name: Option<String>,
    /// Whether the workspace holds no window at all.
    pub is_empty: bool,
}

/// A monitor as the daemon reports it: its workspaces in the daemon's order
/// and the index of the focused one.
#[derive(Clone, Debug)]
pub struct MonitorState {
    pub workspaces: Vec<WorkspaceState>,
    pub focused_workspace: usize,
}

/// The part of the daemon's full state that the display reads: the monitors
/// and the index of the focused one.
#[derive(Clone, Debug)]
pub struct DaemonState {
    pub monitors: Vec<MonitorState>,
    pub focused_monitor: usize,
}

} // verus!
