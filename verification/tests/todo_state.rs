//! The item state machine and the todo list, exercised directly.

use txrx::label::bool_to_display;
use txrx::label::decimal_string;
use txrx::label::items_left_label;
use txrx::todo::TodoState;
use txrx::todo_list::TodoList;
use txrx::todo_list::TodoListMsg;
use txrx::transform::apply_list_msg;
use txrx::transform::apply_transform;
use txrx::transform::mk_bool_to_display;
use txrx::transform::Transform;
use txrx::value::ListDelta;
use txrx::value::Value;

#[test]
fn todo_state_new_shows_name() {
    let s = TodoState::new("a".to_string());
    assert_eq!(s.name, "a");
    assert_eq!(s.edit_text, "a");
    assert!(!s.is_done);
    assert!(!s.is_editing);
}

#[test]
fn commit_persists_name_and_leaves_editing() {
    let mut s = TodoState::new("a".to_string());
    s.start_edit();
    assert!(s.is_editing);
    s.commit(&"b".to_string());
    assert!(!s.is_editing);
    assert_eq!(s.name, "b");
    assert_eq!(s.edit_text, "b");
}

#[test]
fn cancel_reverts_without_persisting() {
    let mut s = TodoState::new("a".to_string());
    s.start_edit();
    s.set_edit_text(&"zzz".to_string());
    assert_eq!(s.edit_text, "zzz");
    s.cancel();
    assert!(!s.is_editing);
    assert_eq!(s.name, "a");
    assert_eq!(s.edit_text, "a");
}

#[test]
fn commit_when_not_editing_is_a_no_op() {
    let mut s = TodoState::new("a".to_string());
    s.commit(&"b".to_string());
    assert_eq!(s.name, "a");
    assert!(!s.is_editing);
}

#[test]
fn toggle_flips_only_while_viewing() {
    let mut s = TodoState::new("a".to_string());
    s.toggle();
    assert!(s.is_done);
    s.start_edit();
    s.toggle();
    assert!(s.is_done);
    s.cancel();
    s.toggle();
    assert!(!s.is_done);
}

#[test]
fn list_add_and_remove_by_stable_index() {
    let mut l = TodoList::new();
    l.add_todo("one".to_string());
    l.add_todo("two".to_string());
    assert_eq!(l.len(), 2);
    assert_eq!(l.get(0).unwrap().index, 0);
    assert_eq!(l.get(1).unwrap().name, "two");
    l.remove_todo(0);
    assert_eq!(l.len(), 1);
    assert_eq!(l.get(0).unwrap().index, 1);
    assert_eq!(l.get(0).unwrap().name, "two");
    l.add_todo("three".to_string());
    assert_eq!(l.get(1).unwrap().index, 2);
}

#[test]
fn list_remove_absent_index_is_a_no_op() {
    let mut l = TodoList::new();
    l.add_todo("one".to_string());
    l.remove_todo(9);
    assert_eq!(l.len(), 1);
}

#[test]
fn list_update_name_renames_matching_entry() {
    let mut l = TodoList::new();
    l.add_todo("one".to_string());
    l.add_todo("two".to_string());
    l.update_name(1, &"dos".to_string());
    assert_eq!(l.get(0).unwrap().name, "one");
    assert_eq!(l.get(1).unwrap().name, "dos");
    l.update_name(7, &"ghost".to_string());
    assert_eq!(l.get(1).unwrap().name, "dos");
}

#[test]
fn list_step_announces_display_edges_and_count() {
    let mut l = TodoList::new();
    let d = apply_list_msg(&mut l, &TodoListMsg::TodoAdd("a".to_string()));
    assert_eq!(d.display, Some(true));
    assert_eq!(d.count, Some(1));
    let d = apply_list_msg(&mut l, &TodoListMsg::TodoAdd("b".to_string()));
    assert_eq!(d.display, None);
    assert_eq!(d.count, Some(2));
    let d = apply_list_msg(&mut l, &TodoListMsg::TodoUpdateName(0, "a2".to_string()));
    assert_eq!(d.display, None);
    assert_eq!(d.count, None);
    let d = apply_list_msg(&mut l, &TodoListMsg::TodoRemove(0));
    assert_eq!(d.display, None);
    assert_eq!(d.count, Some(1));
    let d = apply_list_msg(&mut l, &TodoListMsg::TodoRemove(1));
    assert_eq!(d.display, Some(false));
    assert_eq!(d.count, Some(0));
    let d = apply_list_msg(&mut l, &TodoListMsg::TodoRemove(3));
    assert_eq!(d.display, None);
    assert_eq!(d.count, None);
}

#[test]
fn decimal_rendering_exact_values() {
    assert_eq!(decimal_string(0), "0");
    assert_eq!(decimal_string(7), "7");
    assert_eq!(decimal_string(10), "10");
    assert_eq!(decimal_string(907), "907");
    assert_eq!(decimal_string(18446744073709551615), "18446744073709551615");
}

#[test]
fn items_left_label_exact_values() {
    assert_eq!(items_left_label(0), "0 items left");
    assert_eq!(items_left_label(1), "1 item left");
    assert_eq!(items_left_label(2), "2 items left");
}

#[test]
fn display_style_exact_values() {
    assert_eq!(bool_to_display(true), "block");
    assert_eq!(bool_to_display(false), "none");
}

#[test]
fn transform_projections() {
    assert_eq!(mk_bool_to_display(), Transform::BoolToDisplay);
    match apply_transform(Transform::ToUnit, &Value::Bool(true)) {
        Some(Value::Unit) => {},
        _ => panic!("expected the unit event"),
    }
    let mut s = TodoState::new("a".to_string());
    s.toggle();
    match apply_transform(Transform::StateName, &Value::State(s.clone())) {
        Some(Value::Text(n)) => assert_eq!(n, "a"),
        _ => panic!("expected the name"),
    }
    match apply_transform(Transform::StateDone, &Value::State(s)) {
        Some(Value::Bool(b)) => assert!(b),
        _ => panic!("expected the flag"),
    }
    match apply_transform(Transform::ToUpdateName(4), &Value::Text("n".to_string())) {
        Some(Value::Msg(TodoListMsg::TodoUpdateName(i, n))) => {
            assert_eq!(i, 4);
            assert_eq!(n, "n");
        },
        _ => panic!("expected the rename message"),
    }
    match apply_transform(Transform::ToRemove(2), &Value::Unit) {
        Some(Value::Msg(TodoListMsg::TodoRemove(i))) => assert_eq!(i, 2),
        _ => panic!("expected the remove message"),
    }
    let d = ListDelta { display: Some(true), count: None };
    match apply_transform(Transform::DeltaDisplay, &Value::Delta(d)) {
        Some(Value::Bool(b)) => assert!(b),
        _ => panic!("expected the visibility"),
    }
    assert!(apply_transform(Transform::DeltaCount, &Value::Delta(d)).is_none());
}

#[test]
fn transform_suppression_and_class() {
    assert!(apply_transform(Transform::NonEmptyText, &Value::Text(String::new())).is_none());
    assert!(apply_transform(Transform::Negate, &Value::Text("x".to_string())).is_none());
    let mut s = TodoState::new("a".to_string());
    s.toggle();
    match apply_transform(Transform::StateToClass, &Value::State(s.clone())) {
        Some(Value::Text(c)) => assert_eq!(c, "completed"),
        _ => panic!("expected a class"),
    }
    s.start_edit();
    match apply_transform(Transform::StateToClass, &Value::State(s)) {
        Some(Value::Text(c)) => assert_eq!(c, "editing"),
        _ => panic!("expected a class"),
    }
}
