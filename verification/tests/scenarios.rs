//! End-to-end scenarios over the full application graphs.

use txrx::engine::Engine;
use txrx::transform::SharedCell;
use txrx::transform::Transform;
use txrx::value::KeyEvent;
use txrx::value::Value;
use txrx::wiring::wire_todo_app;
use txrx::wiring::todo_item;

#[test]
fn add_then_remove_drives_display_and_count() {
    let mut e = Engine::new();
    let w = wire_todo_app(&mut e);
    e.set_responder(w.footer.rx_display_style, 1);
    e.set_responder(w.footer.rx_items_label, 2);
    e.set_responder(w.list.rx_list_style, 3);

    e.send(w.input.tx_input, &Value::Text("buy milk".to_string()));
    match e.cell_at(w.list.list_cell) {
        SharedCell::List(l) => {
            assert_eq!(l.len(), 1);
            assert_eq!(l.get(0).unwrap().name, "buy milk");
            assert_eq!(l.get(0).unwrap().index, 0);
        },
        _ => panic!("expected the list cell"),
    }
    assert_eq!(e.log_len(), 3);
    assert_eq!(e.log_at(0).tag, 3);
    match &e.log_at(0).value {
        Value::Text(s) => assert_eq!(s, "block"),
        _ => panic!("expected a style"),
    }
    assert_eq!(e.log_at(1).tag, 1);
    match &e.log_at(1).value {
        Value::Text(s) => assert_eq!(s, "block"),
        _ => panic!("expected a style"),
    }
    assert_eq!(e.log_at(2).tag, 2);
    match &e.log_at(2).value {
        Value::Text(s) => assert_eq!(s, "1 item left"),
        _ => panic!("expected the count label"),
    }
    match e.pending_at(w.input.rx_input_value) {
        Some(Value::Text(s)) => assert_eq!(s, ""),
        _ => panic!("expected the cleared entry text"),
    }

    e.send(w.list.tx_msg, &Value::Msg(txrx::todo_list::TodoListMsg::TodoRemove(0)));
    match e.cell_at(w.list.list_cell) {
        SharedCell::List(l) => assert_eq!(l.len(), 0),
        _ => panic!("expected the list cell"),
    }
    assert_eq!(e.log_len(), 6);
    match &e.log_at(3).value {
        Value::Text(s) => assert_eq!(s, "none"),
        _ => panic!("expected a style"),
    }
    match &e.log_at(4).value {
        Value::Text(s) => assert_eq!(s, "none"),
        _ => panic!("expected a style"),
    }
    match &e.log_at(5).value {
        Value::Text(s) => assert_eq!(s, "0 items left"),
        _ => panic!("expected the count label"),
    }
}

#[test]
fn empty_entry_never_reaches_the_list() {
    let mut e = Engine::new();
    let w = wire_todo_app(&mut e);
    e.send(w.input.tx_input, &Value::Text(String::new()));
    match e.cell_at(w.list.list_cell) {
        SharedCell::List(l) => assert_eq!(l.len(), 0),
        _ => panic!("expected the list cell"),
    }
    assert_eq!(e.log_len(), 0);
    assert!(e.pending_at(w.input.rx_input_value).is_none());
}

#[test]
fn edit_commit_renames_item_and_list() {
    let mut e = Engine::new();
    let w0 = wire_todo_app(&mut e);
    e.send(w0.input.tx_input, &Value::Text("a".to_string()));
    let w = todo_item(&mut e, 0, "a".to_string(), w0.list.tx_msg);
    e.set_responder(w.rx_state, 7);

    e.send(w.tx_start_edit, &Value::Unit);
    match e.cell_at(w.cell) {
        SharedCell::Item(s) => {
            assert!(s.is_editing);
            assert_eq!(s.name, "a");
        },
        _ => panic!("expected the item cell"),
    }
    match &e.log_at(e.log_len() - 1).value {
        Value::State(s) => assert!(s.is_editing),
        _ => panic!("expected a state snapshot"),
    }

    e.send(w.tx_edit_text, &Value::Text("b".to_string()));
    e.send(w.tx_key, &Value::Key(KeyEvent::Enter));
    match e.cell_at(w.cell) {
        SharedCell::Item(s) => {
            assert!(!s.is_editing);
            assert_eq!(s.name, "b");
        },
        _ => panic!("expected the item cell"),
    }
    match &e.log_at(e.log_len() - 1).value {
        Value::State(s) => {
            assert!(!s.is_editing);
            assert_eq!(s.name, "b");
        },
        _ => panic!("expected a state snapshot"),
    }
    match e.pending_at(w.rx_name) {
        Some(Value::Text(s)) => assert_eq!(s, "b"),
        _ => panic!("expected the committed name"),
    }
    match e.cell_at(w0.list.list_cell) {
        SharedCell::List(l) => assert_eq!(l.get(0).unwrap().name, "b"),
        _ => panic!("expected the list cell"),
    }
}

#[test]
fn edit_cancel_keeps_old_name() {
    let mut e = Engine::new();
    let tx_msg = e.new_transmitter();
    let w = todo_item(&mut e, 0, "a".to_string(), tx_msg);

    e.send(w.tx_start_edit, &Value::Unit);
    e.send(w.tx_edit_text, &Value::Text("zzz".to_string()));
    e.send(w.tx_key, &Value::Key(KeyEvent::Escape));
    match e.cell_at(w.cell) {
        SharedCell::Item(s) => {
            assert!(!s.is_editing);
            assert_eq!(s.name, "a");
            assert_eq!(s.edit_text, "a");
        },
        _ => panic!("expected the item cell"),
    }
}

#[test]
fn other_keys_commit_nothing() {
    let mut e = Engine::new();
    let tx_msg = e.new_transmitter();
    let w = todo_item(&mut e, 0, "a".to_string(), tx_msg);
    e.send(w.tx_start_edit, &Value::Unit);
    e.send(w.tx_edit_text, &Value::Text("b".to_string()));
    e.send(w.tx_key, &Value::Key(KeyEvent::Other));
    match e.cell_at(w.cell) {
        SharedCell::Item(s) => {
            assert!(s.is_editing);
            assert_eq!(s.name, "a");
            assert_eq!(s.edit_text, "b");
        },
        _ => panic!("expected the item cell"),
    }
}

#[test]
fn blur_commits_edited_text() {
    let mut e = Engine::new();
    let tx_msg = e.new_transmitter();
    let w = todo_item(&mut e, 0, "a".to_string(), tx_msg);
    e.send(w.tx_start_edit, &Value::Unit);
    e.send(w.tx_edit_text, &Value::Text("c".to_string()));
    e.send(w.tx_blur, &Value::Unit);
    match e.cell_at(w.cell) {
        SharedCell::Item(s) => {
            assert!(!s.is_editing);
            assert_eq!(s.name, "c");
        },
        _ => panic!("expected the item cell"),
    }
}

#[test]
fn toggle_announces_flag_and_class() {
    let mut e = Engine::new();
    let tx_msg = e.new_transmitter();
    let w = todo_item(&mut e, 0, "a".to_string(), tx_msg);
    e.set_responder(w.rx_is_complete, 1);
    e.set_responder(w.rx_class, 2);
    e.send(w.tx_toggle, &Value::Unit);
    match e.cell_at(w.cell) {
        SharedCell::Item(s) => assert!(s.is_done),
        _ => panic!("expected the item cell"),
    }
    assert_eq!(e.log_at(0).tag, 1);
    match &e.log_at(0).value {
        Value::Bool(b) => assert!(*b),
        _ => panic!("expected the flag"),
    }
    assert_eq!(e.log_at(1).tag, 2);
    match &e.log_at(1).value {
        Value::Text(c) => assert_eq!(c, "completed"),
        _ => panic!("expected the class"),
    }
}

#[test]
fn buffered_name_replays_into_fresh_list() {
    let mut e = Engine::new();
    let p = e.txrx();
    let rx_todo = p.1;
    let tx_display = e.new_transmitter();
    let tx_num_items = e.new_transmitter();
    e.send(p.0, &Value::Text("a".to_string()));
    e.send(p.0, &Value::Text("b".to_string()));
    match e.pending_at(rx_todo) {
        Some(Value::Text(s)) => assert_eq!(s, "b"),
        _ => panic!("expected the buffered name"),
    }
    let w = txrx::wiring::todo_main_section(&mut e, tx_display, rx_todo, tx_num_items);
    match e.cell_at(w.list_cell) {
        SharedCell::List(l) => {
            assert_eq!(l.len(), 1);
            assert_eq!(l.get(0).unwrap().name, "b");
        },
        _ => panic!("expected the list cell"),
    }
    assert!(e.pending_at(rx_todo).is_none());
}

#[test]
fn commit_outside_editing_sends_nothing() {
    let mut e = Engine::new();
    let m = e.txrx();
    let tx_msg = m.0;
    e.set_responder(m.1, 9);
    let w = todo_item(&mut e, 0, "a".to_string(), tx_msg);
    e.set_responder(w.rx_state, 7);

    e.send(w.tx_blur, &Value::Unit);
    e.send(w.tx_key, &Value::Key(KeyEvent::Enter));
    e.send(w.tx_key, &Value::Key(KeyEvent::Escape));
    assert_eq!(e.log_len(), 0);
    assert!(e.pending_at(w.rx_name).is_none());
    match e.cell_at(w.cell) {
        SharedCell::Item(s) => {
            assert!(!s.is_editing);
            assert_eq!(s.name, "a");
            assert_eq!(s.edit_text, "a");
        },
        _ => panic!("expected the item cell"),
    }
}

#[test]
fn independent_item_graphs_never_touch_each_other() {
    let mut e = Engine::new();
    let tx_msg = e.new_transmitter();
    let w0 = todo_item(&mut e, 0, "zero".to_string(), tx_msg);
    let w1 = todo_item(&mut e, 1, "one".to_string(), tx_msg);
    e.send(w0.tx_toggle, &Value::Unit);
    e.send(w0.tx_start_edit, &Value::Unit);
    match e.cell_at(w0.cell) {
        SharedCell::Item(s) => {
            assert!(s.is_done);
            assert!(s.is_editing);
        },
        _ => panic!("expected the item cell"),
    }
    match e.cell_at(w1.cell) {
        SharedCell::Item(s) => {
            assert!(!s.is_done);
            assert!(!s.is_editing);
            assert_eq!(s.name, "one");
        },
        _ => panic!("expected the item cell"),
    }
}

#[test]
fn branch_fan_out_fires_each_branch_once() {
    let mut e = Engine::new();
    let p = e.txrx();
    let b1 = e.branch_map(p.1, Transform::Negate);
    let b2 = e.branch_map(p.1, Transform::Ident);
    e.set_responder(b1, 1);
    e.set_responder(b2, 2);
    e.send(p.0, &Value::Bool(true));
    assert_eq!(e.log_len(), 2);
    assert_eq!(e.log_at(0).tag, 1);
    match &e.log_at(0).value {
        Value::Bool(b) => assert!(!*b),
        _ => panic!("expected a flag"),
    }
    assert_eq!(e.log_at(1).tag, 2);
    match &e.log_at(1).value {
        Value::Bool(b) => assert!(*b),
        _ => panic!("expected a flag"),
    }
}
