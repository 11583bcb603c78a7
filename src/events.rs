use vstd::prelude::*;

use crate::state::DaemonState;

verus! {

/// The commands of the daemon's control channel that a notification can
/// report.
#[derive(Clone, Copy, Debug, PartialEq, Eq, Structural)]
pub enum CommandKind {
    FocusWorkspaceNumber,
    FocusWorkspaceNumbers,
    FocusMonitorNumber,
    FocusMonitorWorkspaceNumber,
    FocusMonitorAtCursor,
    FocusNamedWorkspace,
    FocusLastWorkspace,
    CycleFocusMonitor,
    CycleFocusWorkspace,
    CycleFocusEmptyWorkspace,
    MoveContainerToMonitorNumber,
    MoveContainerToWorkspaceNumber,
    MoveContainerToMonitorWorkspaceNumber,
    MoveContainerToNamedWorkspace,
    CycleMoveContainerToMonitor,
    CycleMoveContainerToWorkspace,
    SendContainerToMonitorNumber,
    SendContainerToWorkspaceNumber,
    SendContainerToMonitorWorkspaceNumber,
    SendContainerToNamedWorkspace,
    CycleSendContainerToMonitor,
    CycleSendContainerToWorkspace,
    MoveWorkspaceToMonitorNumber,
    CycleMoveWorkspaceToMonitor,
    SwapWorkspacesToMonitorNumber,
    CloseWorkspace,
    ReloadConfiguration,
    ReplaceConfiguration,
    CompleteConfiguration,
    FocusWindow,
    MoveWindow,
    CycleFocusWindow,
    StackWindow,
    UnstackWindow,
    ToggleFloat,
    ToggleMonocle,
    ToggleMaximize,
    Minimize,
    Close,
    Retile,
    ChangeLayout,
    TogglePause,
    /// Any command that no other variant names.
    Other,
}

/// The window lifecycle events that the daemon reports.
#[derive(Clone, Copy, Debug, PartialEq, Eq, Structural)]
pub enum WindowEventKind {
    Destroy,
    FocusChange,
    Hide,
    Cloak,
    Minimize,
    Show,
    Uncloak,
    MoveResizeStart,
    MoveResizeEnd,
    MouseCapture,
    Manage,
    Unmanage,
    Raise,
    TitleUpdate,
}

/// What a notification reports.
#[derive(Clone, Copy, Debug, PartialEq, Eq, Structural)]
pub enum EventKind {
    Command(CommandKind),
    Window(WindowEventKind),
    /// An event payload that could not be recognised.
    Unrecognized,
}

/// A decoded notification: the event and the daemon's full state as of it.
#[derive(Clone, Debug)]
pub struct Notification {
    pub event: EventKind,
    pub state: DaemonState,
}

/// The table of commands that can change focus, which workspace holds a
/// window, or which monitor holds a workspace. Every command is listed, on
/// one side or the other.
pub open spec fn command_relevant(k: CommandKind) -> bool {
    match k {
        CommandKind::FocusWorkspaceNumber => true,
        CommandKind::FocusWorkspaceNumbers => true,
        CommandKind::FocusMonitorNumber => true,
        CommandKind::FocusMonitorWorkspaceNumber => true,
        CommandKind::FocusMonitorAtCursor => true,
        CommandKind::FocusNamedWorkspace => true,
        CommandKind::FocusLastWorkspace => true,
        CommandKind::CycleFocusMonitor => true,
        CommandKind::CycleFocusWorkspace => true,
        CommandKind::CycleFocusEmptyWorkspace => true,
        CommandKind::MoveContainerToMonitorNumber => true,
        CommandKind::MoveContainerToWorkspaceNumber => true,
        CommandKind::MoveContainerToMonitorWorkspaceNumber => true,
        CommandKind::MoveContainerToNamedWorkspace => true,
        CommandKind::CycleMoveContainerToMonitor => true,
        CommandKind::CycleMoveContainerToWorkspace => true,
        CommandKind::SendContainerToMonitorNumber => true,
        CommandKind::SendContainerToWorkspaceNumber => true,
        CommandKind::SendContainerToMonitorWorkspaceNumber => true,
        CommandKind::SendContainerToNamedWorkspace => true,
        CommandKind::CycleSendContainerToMonitor => true,
        CommandKind::CycleSendContainerToWorkspace => true,
        CommandKind::MoveWorkspaceToMonitorNumber => true,
        CommandKind::CycleMoveWorkspaceToMonitor => true,
        CommandKind::SwapWorkspacesToMonitorNumber => true,
        CommandKind::CloseWorkspace => true,
        CommandKind::ReloadConfiguration => true,
        CommandKind::ReplaceConfiguration => true,
        CommandKind::CompleteConfiguration => true,
        CommandKind::FocusWindow => false,
        CommandKind::MoveWindow => false,
        CommandKind::CycleFocusWindow => false,
        CommandKind::StackWindow => false,
        CommandKind::UnstackWindow => false,
        CommandKind::ToggleFloat => false,
        CommandKind::ToggleMonocle => false,
        CommandKind::ToggleMaximize => false,
        CommandKind::Minimize => false,
        CommandKind::Close => false,
        CommandKind::Retile => false,
        CommandKind::ChangeLayout => false,
        CommandKind::TogglePause => false,
        CommandKind::Other => false,
    }
}

/// The window events that change occupancy without a command of their own:
/// cloak, uncloak and destroy.
pub open spec fn window_event_relevant(k: WindowEventKind) -> bool {
    match k {
        WindowEventKind::Cloak => true,
        WindowEventKind::Uncloak => true,
        WindowEventKind::Destroy => true,
        WindowEventKind::FocusChange => false,
        WindowEventKind::Hide => false,
        WindowEventKind::Minimize => false,
        WindowEventKind::Show => false,
        WindowEventKind::MoveResizeStart => false,
        WindowEventKind::MoveResizeEnd => false,
        WindowEventKind::MouseCapture => false,
        WindowEventKind::Manage => false,
        WindowEventKind::Unmanage => false,
        WindowEventKind::Raise => false,
        WindowEventKind::TitleUpdate => false,
    }
}

/// Whether an event can alter the displayed slots.
pub open spec fn event_relevant(e: EventKind) -> bool {
    match e {
        EventKind::Command(k) => command_relevant(k),
        EventKind::Window(k) => window_event_relevant(k),
        EventKind::Unrecognized => false,
    }
}

/// Looks a command up in the table of relevant commands.
pub fn is_relevant_command(k: CommandKind) -> (r: bool)
    ensures
        r == command_relevant(k),
{
    match k {
        CommandKind::FocusWorkspaceNumber
        | CommandKind::FocusWorkspaceNumbers
        | CommandKind::FocusMonitorNumber
        | CommandKind::FocusMonitorWorkspaceNumber
        | CommandKind::FocusMonitorAtCursor
        | CommandKind::FocusNamedWorkspace
        | CommandKind::FocusLastWorkspace
        | CommandKind::CycleFocusMonitor
        | CommandKind::CycleFocusWorkspace
        | CommandKind::CycleFocusEmptyWorkspace
        | CommandKind::MoveContainerToMonitorNumber
        | CommandKind::MoveContainerToWorkspaceNumber
        | CommandKind::MoveContainerToMonitorWorkspaceNumber
        | CommandKind::MoveContainerToNamedWorkspace
        | CommandKind::CycleMoveContainerToMonitor
        | CommandKind::CycleMoveContainerToWorkspace
        | CommandKind::SendContainerToMonitorNumber
        | CommandKind::SendContainerToWorkspaceNumber
        | CommandKind::SendContainerToMonitorWorkspaceNumber
        | CommandKind::SendContainerToNamedWorkspace
        | CommandKind::CycleSendContainerToMonitor
        | CommandKind::CycleSendContainerToWorkspace
        | CommandKind::MoveWorkspaceToMonitorNumber
        | CommandKind::CycleMoveWorkspaceToMonitor
        | CommandKind::SwapWorkspacesToMonitorNumber
        | CommandKind::CloseWorkspace
        | CommandKind::ReloadConfiguration
        | CommandKind::ReplaceConfiguration
        | CommandKind::CompleteConfiguration => true,
        CommandKind::FocusWindow
        | CommandKind::MoveWindow
        | CommandKind::CycleFocusWindow
        | CommandKind::StackWindow
        | CommandKind::UnstackWindow
        | CommandKind::ToggleFloat
        | CommandKind::ToggleMonocle
        | CommandKind::ToggleMaximize
        | CommandKind::Minimize
        | CommandKind::Close
        | CommandKind::Retile
        | CommandKind::ChangeLayout
        | CommandKind::TogglePause
        | CommandKind::Other => false,
    }
}

/// Looks a window event up in the table of relevant window events.
pub fn is_relevant_window_event(k: WindowEventKind) -> (r: bool)
    ensures
        r == window_event_relevant(k),
{
    match k {
        WindowEventKind::Cloak | WindowEventKind::Uncloak | WindowEventKind::Destroy => true,
        WindowEventKind::FocusChange
        | WindowEventKind::Hide
        | WindowEventKind::Minimize
        | WindowEventKind::Show
        | WindowEventKind::MoveResizeStart
        | WindowEventKind::MoveResizeEnd
        | WindowEventKind::MouseCapture
        | WindowEventKind::Manage
        | WindowEventKind::Unmanage
        | WindowEventKind::Raise
        | WindowEventKind::TitleUpdate => false,
    }
}

/// Whether a notification of this kind warrants a new snapshot.
pub fn is_relevant(e: EventKind) -> (r: bool)
    ensures
        r == event_relevant(e),
{
    match e {
        EventKind::Command(k) => is_relevant_command(k),
        EventKind::Window(k) => is_relevant_window_event(k),
        EventKind::Unrecognized => false,
    }
}

/// Every command that switches focus by number or by monitor, cycles focus,
/// moves or sends a container or workspace, closes a workspace or reloads,
/// replaces or completes the configuration is relevant; hiding, minimising,
/// showing a window and updating its title are not.
pub proof fn lemma_filter_complete()
    ensures
        event_relevant(EventKind::Command(CommandKind::FocusWorkspaceNumber)),
        event_relevant(EventKind::Command(CommandKind::FocusWorkspaceNumbers)),
        event_relevant(EventKind::Command(CommandKind::FocusMonitorNumber)),
        event_relevant(EventKind::Command(CommandKind::FocusMonitorWorkspaceNumber)),
        event_relevant(EventKind::Command(CommandKind::CycleFocusMonitor)),
        event_relevant(EventKind::Command(CommandKind::CycleFocusWorkspace)),
        event_relevant(EventKind::Command(CommandKind::MoveContainerToMonitorNumber)),
        event_relevant(EventKind::Command(CommandKind::MoveContainerToWorkspaceNumber)),
        event_relevant(EventKind::Command(CommandKind::MoveContainerToMonitorWorkspaceNumber)),
        event_relevant(EventKind::Command(CommandKind::MoveContainerToNamedWorkspace)),
        event_relevant(EventKind::Command(CommandKind::CycleMoveContainerToMonitor)),
        event_relevant(EventKind::Command(CommandKind::CycleMoveContainerToWorkspace)),
        event_relevant(EventKind::Command(CommandKind::SendContainerToMonitorNumber)),
        event_relevant(EventKind::Command(CommandKind::SendContainerToWorkspaceNumber)),
        event_relevant(EventKind::Command(CommandKind::SendContainerToMonitorWorkspaceNumber)),
        event_relevant(EventKind::Command(CommandKind::SendContainerToNamedWorkspace)),
        event_relevant(EventKind::Command(CommandKind::CycleSendContainerToMonitor)),
        event_relevant(EventKind::Command(CommandKind::CycleSendContainerToWorkspace)),
        event_relevant(EventKind::Command(CommandKind::MoveWorkspaceToMonitorNumber)),
        event_relevant(EventKind::Command(CommandKind::CycleMoveWorkspaceToMonitor)),
        event_relevant(EventKind::Command(CommandKind::CloseWorkspace)),
        event_relevant(EventKind::Command(CommandKind::ReloadConfiguration)),
        event_relevant(EventKind::Command(CommandKind::ReplaceConfiguration)),
        event_relevant(EventKind::Command(CommandKind::CompleteConfiguration)),
        !event_relevant(EventKind::Window(WindowEventKind::Hide)),
        !event_relevant(EventKind::Window(WindowEventKind::Minimize)),
        !event_relevant(EventKind::Window(WindowEventKind::Show)),
        !event_relevant(EventKind::Window(WindowEventKind::TitleUpdate)),
        !event_relevant(EventKind::Command(CommandKind::Minimize)),
{
}

} // verus!
