//! Mirrors the workspace state of a tiling window-manager daemon for a
//! status-bar style display: the projection of the daemon's state onto
//! display slots, the relevance filter for the daemon's notifications, the
//! subscription state machine, the handoff of snapshots to the display and
//! the diff between the displayed slots and a new snapshot.

pub mod colors;
pub mod decimal;
pub mod events;
pub mod handoff;
pub mod layout;
pub mod projection;
pub mod session;
pub mod state;
pub mod workspaces;

pub use colors::{AccentShade, ColorSettings, Rgb};
pub use events::{CommandKind, EventKind, Notification, WindowEventKind};
pub use handoff::UpdateWorkspaces;
pub use projection::{workspaces_from_state, ProjectError};
pub use session::{
    decode_text, DecodeError, Session, SessionAction, SessionConfig, SessionEvent, SessionState,
    SkipReason,
};
pub use state::{Classification, DaemonState, MonitorState, WorkspaceState, WorkspaceView};
pub use workspaces::{ChangedWorkspace, Workspaces};
