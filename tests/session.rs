use komoswitch::session::{notification_update, DEBUG_CHANNEL, RELEASE_CHANNEL};
use komoswitch::{
    decode_text, Classification, CommandKind, DaemonState, DecodeError, EventKind, MonitorState,
    Notification, Session, SessionAction, SessionConfig, SessionEvent, SessionState, SkipReason,
    WindowEventKind, WorkspaceState,
};

fn state(focused_workspace: usize) -> DaemonState {
    DaemonState {
        monitors: vec![MonitorState {
            workspaces: vec![
                WorkspaceState { name: None, is_empty: true },
                WorkspaceState { name: Some("code".to_string()), is_empty: false },
            ],
            focused_workspace,
        }],
        focused_monitor: 0,
    }
}

fn note(event: EventKind, focused_workspace: usize) -> Notification {
    Notification { event, state: state(focused_workspace) }
}

fn switch(focused_workspace: usize) -> SessionEvent {
    SessionEvent::Received(Ok(note(
        EventKind::Command(CommandKind::FocusWorkspaceNumber),
        focused_workspace,
    )))
}

fn listening() -> Session {
    let mut s = Session::new(SessionConfig::new(false));
    assert!(matches!(s.step(SessionEvent::Subscribed), SessionAction::Accept));
    assert_eq!(s.state, SessionState::Listening);
    s
}

fn delivered_focus(a: &SessionAction) -> Option<usize> {
    match a {
        SessionAction::Deliver(u) => {
            u.workspaces.iter().position(|w| w.classification == Classification::Focused)
        }
        _ => None,
    }
}

#[test]
fn config_names_debug_and_release_channels() {
    let d = SessionConfig::new(true);
    assert_eq!(d.channel_name, DEBUG_CHANNEL);
    assert_eq!(d.channel_name, "komorebi-switcher-debug.sock");
    let r = SessionConfig::new(false);
    assert_eq!(r.channel_name, RELEASE_CHANNEL);
    assert_eq!(r.channel_name, "komorebi-switcher.sock");
    assert_eq!(r.connect_retry_ms, 1000);
    assert_eq!(r.reconnect_retry_ms, 3000);
    assert_eq!(r.read_timeout_ms, 1000);
    assert!(r.filter_state_changes);
}

#[test]
fn connecting_retries_until_subscribed() {
    let mut s = Session::new(SessionConfig::new(false));
    assert_eq!(s.state, SessionState::Connecting);
    for _ in 0..5 {
        assert!(matches!(s.step(SessionEvent::SubscribeFailed), SessionAction::Subscribe { delay_ms: 1000 }));
        assert_eq!(s.state, SessionState::Connecting);
    }
    assert!(matches!(s.step(SessionEvent::Subscribed), SessionAction::Accept));
    assert_eq!(s.state, SessionState::Listening);
}

#[test]
fn reconnect_converges_once_and_keeps_later_notifications() {
    let mut s = listening();
    let mut states = vec![];
    let mut actions = vec![];
    let mut events = vec![SessionEvent::PeerClosed];
    for _ in 0..4 {
        events.push(SessionEvent::ReregisterFailed);
    }
    events.push(SessionEvent::Reregistered);
    events.push(switch(0));
    events.push(switch(1));
    for e in events {
        actions.push(s.step(e));
        states.push(s.state);
    }
    let mut expected = vec![SessionState::Disconnected; 5];
    expected.extend(vec![SessionState::Listening; 3]);
    assert_eq!(states, expected);
    assert!(matches!(actions[0], SessionAction::Reregister { delay_ms: 0 }));
    for a in &actions[1..5] {
        assert!(matches!(a, SessionAction::Reregister { delay_ms: 3000 }));
    }
    assert!(matches!(actions[5], SessionAction::Accept));
    assert_eq!(delivered_focus(&actions[6]), Some(0));
    assert_eq!(delivered_focus(&actions[7]), Some(1));
}

#[test]
fn malformed_messages_are_skipped_and_the_next_one_is_taken() {
    let bad_bytes = decode_text(vec![0xff, 0xfe, b'{']);
    assert_eq!(bad_bytes.clone().unwrap_err(), DecodeError::InvalidUtf8);
    let text = decode_text(b"{\"event\": ".to_vec()).unwrap();
    assert_eq!(text, "{\"event\": ");
    let mut s = listening();
    let mut delivered = 0;
    let mut skipped = 0;
    let events = vec![
        SessionEvent::Received(bad_bytes.map(|_| note(EventKind::Unrecognized, 0))),
        SessionEvent::Received(Err(DecodeError::MalformedDocument)),
        switch(1),
    ];
    for e in events {
        match s.step(e) {
            SessionAction::Deliver(_) => delivered += 1,
            SessionAction::Skip(SkipReason::Decode(_)) => skipped += 1,
            other => panic!("unexpected action {:?}", other),
        }
        assert_eq!(s.state, SessionState::Listening);
    }
    assert_eq!((delivered, skipped), (1, 2));
}

#[test]
fn decode_text_keeps_multibyte_text() {
    assert_eq!(decode_text("wörk ✓".as_bytes().to_vec()).unwrap(), "wörk ✓");
    assert_eq!(decode_text(vec![]).unwrap(), "");
    assert_eq!(decode_text(vec![0xed, 0xa0, 0x80]).unwrap_err(), DecodeError::InvalidUtf8);
}

#[test]
fn irrelevant_notification_is_skipped() {
    let mut s = listening();
    let a = s.step(SessionEvent::Received(Ok(note(EventKind::Window(WindowEventKind::Hide), 0))));
    assert!(matches!(a, SessionAction::Skip(SkipReason::Irrelevant)));
    assert_eq!(s.state, SessionState::Listening);
}

#[test]
fn notification_without_focused_monitor_is_skipped() {
    let mut n = note(EventKind::Window(WindowEventKind::Cloak), 0);
    n.state.focused_monitor = 3;
    assert!(matches!(notification_update(&n), Err(SkipReason::NoFocusedMonitor)));
    let mut s = listening();
    assert!(matches!(s.step(SessionEvent::Received(Ok(n))), SessionAction::Skip(SkipReason::NoFocusedMonitor)));
}

#[test]
fn relevant_notification_delivers_its_projection() {
    let u = notification_update(&note(EventKind::Window(WindowEventKind::Destroy), 1)).unwrap();
    let slots = u.into_workspaces();
    assert_eq!(slots.len(), 2);
    assert_eq!((slots[0].name.as_str(), slots[0].classification), ("1", Classification::Empty));
    assert_eq!((slots[1].name.as_str(), slots[1].classification), ("code", Classification::Focused));
}

#[test]
fn accept_failure_is_skipped_while_listening() {
    let mut s = listening();
    assert!(matches!(s.step(SessionEvent::AcceptFailed), SessionAction::Skip(SkipReason::AcceptFailed)));
    assert_eq!(s.state, SessionState::Listening);
}

#[test]
fn stop_ends_the_session_from_any_state() {
    let mut s = Session::new(SessionConfig::new(true));
    assert!(matches!(s.step(SessionEvent::StopRequested), SessionAction::Stop));
    assert_eq!(s.state, SessionState::Stopped);
    assert!(matches!(s.step(SessionEvent::Subscribed), SessionAction::Stop));
    let mut l = listening();
    l.step(SessionEvent::PeerClosed);
    assert!(matches!(l.step(SessionEvent::StopRequested), SessionAction::Stop));
    assert_eq!(l.state, SessionState::Stopped);
}

#[test]
fn stray_event_repeats_pending_work() {
    let mut s = Session::new(SessionConfig::new(false));
    assert!(matches!(s.step(SessionEvent::PeerClosed), SessionAction::Subscribe { delay_ms: 1000 }));
    assert_eq!(s.state, SessionState::Connecting);
    let mut l = listening();
    assert!(matches!(l.step(SessionEvent::Reregistered), SessionAction::Accept));
    assert_eq!(l.state, SessionState::Listening);
    l.step(SessionEvent::PeerClosed);
    assert!(matches!(l.step(switch(0)), SessionAction::Reregister { delay_ms: 3000 }));
    assert_eq!(l.state, SessionState::Disconnected);
}
