use komoswitch::{Classification, WorkspaceView, Workspaces};

fn view(name: &str, classification: Classification) -> WorkspaceView {
    WorkspaceView { name: name.to_string(), classification }
}

fn flags(w: &Workspaces) -> Vec<(bool, bool)> {
    w.data.iter().map(|c| (c.name_changed, c.state_changed)).collect()
}

#[test]
fn equal_length_update_flags_only_what_differs() {
    let mut model = Workspaces::new();
    model.try_update(vec![view("1", Classification::Empty), view("2", Classification::Focused)]);
    let changed =
        model.try_update(vec![view("1", Classification::Empty), view("2", Classification::NonEmpty)]);
    assert!(changed);
    assert_eq!(flags(&model), vec![(false, false), (false, true)]);
    assert_eq!(model.data[1].data.classification, Classification::NonEmpty);
    assert!(!model.name_changed());
}

#[test]
fn structural_change_marks_every_slot() {
    let mut model = Workspaces::new();
    model.try_update(vec![view("1", Classification::Empty), view("2", Classification::Focused)]);
    let changed = model.try_update(vec![
        view("1", Classification::Empty),
        view("2", Classification::Focused),
        view("3", Classification::Empty),
    ]);
    assert!(changed);
    assert_eq!(flags(&model), vec![(true, true), (true, true), (true, true)]);
    assert!(model.name_changed());
    let names: Vec<&str> = model.data.iter().map(|c| c.data.name.as_str()).collect();
    assert_eq!(names, vec!["1", "2", "3"]);
}

#[test]
fn shrinking_to_nothing_is_a_change() {
    let mut model = Workspaces::new();
    model.try_update(vec![view("1", Classification::Focused)]);
    assert!(model.try_update(vec![]));
    assert!(model.data.is_empty());
}

#[test]
fn identical_snapshot_changes_nothing() {
    let mut model = Workspaces::new();
    let snapshot = vec![view("a", Classification::Focused), view("b", Classification::Empty)];
    model.try_update(snapshot.clone());
    assert!(!model.try_update(snapshot));
    assert_eq!(flags(&model), vec![(false, false), (false, false)]);
    assert!(!model.name_changed());
}

#[test]
fn renamed_slot_sets_name_flag() {
    let mut model = Workspaces::new();
    model.try_update(vec![view("a", Classification::Focused), view("b", Classification::Empty)]);
    assert!(model.try_update(vec![view("a", Classification::Focused), view("bee", Classification::Empty)]));
    assert_eq!(flags(&model), vec![(false, false), (true, false)]);
    assert!(model.name_changed());
    assert_eq!(model.data[1].data.name, "bee");
}

#[test]
fn empty_to_empty_changes_nothing() {
    let mut model = Workspaces::new();
    assert!(!model.try_update(vec![]));
    assert!(!model.name_changed());
}

#[test]
fn same_update_twice_gives_same_result() {
    let prev = vec![view("1", Classification::Empty), view("2", Classification::Focused)];
    let new = vec![view("1", Classification::NonEmpty), view("2", Classification::Focused)];
    let mut a = Workspaces::new();
    a.try_update(prev.clone());
    let mut b = Workspaces::new();
    b.try_update(prev);
    assert_eq!(a.try_update(new.clone()), b.try_update(new));
    assert_eq!(flags(&a), flags(&b));
}
