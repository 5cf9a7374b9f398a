use dragswap::coordinator::{BindingError, DragCoordinator};

fn coordinator(contents: &[&str]) -> DragCoordinator {
    let owned: Vec<String> = contents.iter().map(|c| c.to_string()).collect();
    DragCoordinator::attach(owned).expect("member set is non-empty")
}

fn assert_no_markers(c: &DragCoordinator) {
    for i in 0..c.len() {
        assert!(!c.has_over_marker(i));
        assert!(!c.has_origin_marker(i));
    }
}

#[test]
fn attach_rejects_empty_member_set() {
    let r = DragCoordinator::attach(Vec::new());
    assert_eq!(r.err(), Some(BindingError));
}

#[test]
fn attach_starts_idle_with_given_contents() {
    let c = coordinator(&["X", "Y"]);
    assert_eq!(c.len(), 2);
    assert_eq!(c.content_of(0).as_str(), "X");
    assert_eq!(c.content_of(1).as_str(), "Y");
    assert!(!c.is_active());
    assert_eq!(c.source(), None);
    assert_no_markers(&c);
}

#[test]
fn full_gesture_swaps_contents_and_cleans_up() {
    let mut c = coordinator(&["X", "Y"]);
    c.on_drag_start(Some(0));
    c.on_drag_enter(Some(1));
    let d = c.on_drag_over(Some(1));
    // The platform delivers `drop` only after the default action was
    // suppressed on `dragover`; treat that as a precondition of going on.
    assert!(d.suppress_default);
    c.on_drop(Some(1));
    c.on_drag_end(Some(1));
    assert_eq!(c.content_of(0).as_str(), "Y");
    assert_eq!(c.content_of(1).as_str(), "X");
    assert!(!c.is_active());
    assert_eq!(c.source(), None);
    assert_no_markers(&c);
}

#[test]
fn dragend_without_drop_restores_everything() {
    let mut c = coordinator(&["X", "Y"]);
    c.on_drag_start(Some(0));
    assert!(c.is_active());
    assert!(c.has_origin_marker(0));
    c.on_drag_end(Some(0));
    assert_eq!(c.content_of(0).as_str(), "X");
    assert_eq!(c.content_of(1).as_str(), "Y");
    assert!(!c.is_active());
    assert_eq!(c.source(), None);
    assert_no_markers(&c);
}

#[test]
fn second_dragstart_does_not_overwrite_the_session() {
    let mut c = coordinator(&["X", "Y"]);
    c.on_drag_start(Some(0));
    c.on_drag_start(Some(1));
    assert_eq!(c.source(), Some(0));
    assert!(c.has_origin_marker(0));
    assert!(!c.has_origin_marker(1));
    assert_eq!(c.content_of(0).as_str(), "X");
    assert_eq!(c.content_of(1).as_str(), "Y");
}

#[test]
fn drop_outside_the_member_set_changes_nothing() {
    let mut c = coordinator(&["X", "Y"]);
    c.on_drag_start(Some(0));
    c.on_drop(None);
    assert_eq!(c.content_of(0).as_str(), "X");
    assert_eq!(c.content_of(1).as_str(), "Y");
    assert_eq!(c.source(), Some(0));
    c.on_drop(Some(7));
    assert_eq!(c.content_of(0).as_str(), "X");
    assert_eq!(c.content_of(1).as_str(), "Y");
    assert_eq!(c.source(), Some(0));
}

#[test]
fn drop_without_a_session_changes_nothing() {
    let mut c = coordinator(&["X", "Y"]);
    c.on_drop(Some(1));
    assert_eq!(c.content_of(0).as_str(), "X");
    assert_eq!(c.content_of(1).as_str(), "Y");
    assert!(!c.is_active());
    assert_eq!(c.source(), None);
}

#[test]
fn drop_onto_the_source_keeps_its_content() {
    let mut c = coordinator(&["X", "Y"]);
    c.on_drag_start(Some(0));
    c.on_drop(Some(0));
    assert_eq!(c.content_of(0).as_str(), "X");
    assert_eq!(c.content_of(1).as_str(), "Y");
    assert_eq!(c.source(), None);
    assert!(c.is_active());
}

#[test]
fn repeated_dragenter_is_absorbed() {
    let mut c = coordinator(&["X", "Y"]);
    c.on_drag_start(Some(0));
    c.on_drag_enter(Some(1));
    c.on_drag_enter(Some(1));
    assert!(c.has_over_marker(1));
    // One leave clears the marker: presence is boolean, not counted.
    c.on_drag_leave(Some(1));
    assert!(!c.has_over_marker(1));
}

#[test]
fn dragover_directs_default_suppression_and_move_effect() {
    let c = coordinator(&["X"]);
    let d = c.on_drag_over(Some(0));
    assert!(d.suppress_default);
    assert!(d.effect_move);
}

#[test]
fn dragenter_outside_the_member_set_marks_nothing() {
    let mut c = coordinator(&["X", "Y"]);
    c.on_drag_start(Some(0));
    c.on_drag_enter(None);
    c.on_drag_enter(Some(9));
    assert!(!c.has_over_marker(0));
    assert!(!c.has_over_marker(1));
}

#[test]
fn hover_events_leave_contents_and_session_alone() {
    let mut c = coordinator(&["X", "Y", "Z"]);
    c.on_drag_start(Some(2));
    c.on_drag_enter(Some(0));
    c.on_drag_over(Some(0));
    c.on_drag_leave(Some(0));
    c.on_drag_enter(Some(1));
    assert_eq!(c.content_of(0).as_str(), "X");
    assert_eq!(c.content_of(1).as_str(), "Y");
    assert_eq!(c.content_of(2).as_str(), "Z");
    assert_eq!(c.source(), Some(2));
    assert!(c.is_active());
}

#[test]
fn swap_between_three_members_touches_only_the_pair() {
    let mut c = coordinator(&["one", "two", "three"]);
    c.on_drag_start(Some(2));
    let d = c.on_drag_over(Some(0));
    assert!(d.suppress_default);
    c.on_drop(Some(0));
    c.on_drag_end(Some(2));
    assert_eq!(c.content_of(0).as_str(), "three");
    assert_eq!(c.content_of(1).as_str(), "two");
    assert_eq!(c.content_of(2).as_str(), "one");
    assert_no_markers(&c);
}
