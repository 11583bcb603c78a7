use komoswitch::decimal::decimal_string;
use komoswitch::{
    workspaces_from_state, Classification, DaemonState, MonitorState, ProjectError,
    WorkspaceState, WorkspaceView,
};

fn ws(name: Option<&str>, is_empty: bool) -> WorkspaceState {
    WorkspaceState { name: name.map(|n| n.to_string()), is_empty }
}

fn one_monitor(workspaces: Vec<WorkspaceState>, focused_workspace: usize) -> DaemonState {
    DaemonState { monitors: vec![MonitorState { workspaces, focused_workspace }], focused_monitor: 0 }
}

fn pairs(v: &[WorkspaceView]) -> Vec<(String, Classification)> {
    v.iter().map(|w| (w.name.clone(), w.classification)).collect()
}

#[test]
fn projects_names_and_classes_in_order() {
    let state = one_monitor(
        vec![ws(Some("web"), false), ws(None, true), ws(None, false), ws(Some("chat"), true)],
        1,
    );
    let slots = workspaces_from_state(&state).unwrap();
    assert_eq!(
        pairs(&slots),
        vec![
            ("web".to_string(), Classification::NonEmpty),
            ("2".to_string(), Classification::Focused),
            ("3".to_string(), Classification::NonEmpty),
            ("chat".to_string(), Classification::Empty),
        ]
    );
}

#[test]
fn focus_takes_precedence_over_emptiness() {
    let state = one_monitor(vec![ws(None, true), ws(None, true)], 0);
    let slots = workspaces_from_state(&state).unwrap();
    assert_eq!(slots[0].classification, Classification::Focused);
    assert_eq!(slots[1].classification, Classification::Empty);
}

#[test]
fn unnamed_workspace_is_named_by_position() {
    let workspaces: Vec<WorkspaceState> = (0..12).map(|_| ws(None, false)).collect();
    let slots = workspaces_from_state(&one_monitor(workspaces, 0)).unwrap();
    assert_eq!(slots[0].name, "1");
    assert_eq!(slots[8].name, "9");
    assert_eq!(slots[9].name, "10");
    assert_eq!(slots[11].name, "12");
}

#[test]
fn decimal_string_writes_decimal() {
    assert_eq!(decimal_string(0), "0");
    assert_eq!(decimal_string(7), "7");
    assert_eq!(decimal_string(10), "10");
    assert_eq!(decimal_string(4096), "4096");
    assert_eq!(decimal_string(usize::MAX), usize::MAX.to_string());
}

#[test]
fn exactly_one_slot_is_focused() {
    for f in 0..4 {
        let state = one_monitor((0..4).map(|i| ws(None, i % 2 == 0)).collect(), f);
        let slots = workspaces_from_state(&state).unwrap();
        let focused: Vec<usize> = (0..slots.len())
            .filter(|&i| slots[i].classification == Classification::Focused)
            .collect();
        assert_eq!(focused, vec![f]);
    }
}

#[test]
fn empty_workspace_list_has_no_focused_slot() {
    let slots = workspaces_from_state(&one_monitor(vec![], 0)).unwrap();
    assert!(slots.is_empty());
}

#[test]
fn focused_index_past_the_end_focuses_nothing() {
    let slots = workspaces_from_state(&one_monitor(vec![ws(None, true), ws(None, false)], 5)).unwrap();
    assert_eq!(
        pairs(&slots),
        vec![("1".to_string(), Classification::Empty), ("2".to_string(), Classification::NonEmpty)]
    );
}

#[test]
fn no_focused_monitor_is_an_error() {
    let state = DaemonState { monitors: vec![], focused_monitor: 0 };
    assert_eq!(workspaces_from_state(&state).unwrap_err(), ProjectError::NoFocusedMonitor);
    let mut two = one_monitor(vec![ws(None, false)], 0);
    two.focused_monitor = 1;
    assert_eq!(workspaces_from_state(&two).unwrap_err(), ProjectError::NoFocusedMonitor);
}

#[test]
fn projects_the_focused_monitor_only() {
    let state = DaemonState {
        monitors: vec![
            MonitorState { workspaces: vec![ws(Some("a"), false)], focused_workspace: 0 },
            MonitorState { workspaces: vec![ws(Some("b"), true), ws(Some("c"), false)], focused_workspace: 1 },
        ],
        focused_monitor: 1,
    };
    let slots = workspaces_from_state(&state).unwrap();
    assert_eq!(
        pairs(&slots),
        vec![("b".to_string(), Classification::Empty), ("c".to_string(), Classification::Focused)]
    );
}

#[test]
fn projection_is_deterministic() {
    let state = one_monitor(vec![ws(Some("x"), false), ws(None, true), ws(None, false)], 2);
    let a = workspaces_from_state(&state).unwrap();
    let b = workspaces_from_state(&state).unwrap();
    assert_eq!(pairs(&a), pairs(&b));
}
