//! Engine-level behavior: delivery order, pending replay, suppression,
//! fold isolation and depth cut-off, each on concrete wirings.

use txrx::engine::Engine;
use txrx::transform::FoldFn;
use txrx::transform::Transform;
use txrx::value::Value;

#[test]
fn order_determinism_three_responders() {
    let mut e = Engine::new();
    let tx = e.new_transmitter();
    let r1 = e.spawn_receiver(tx);
    let r2 = e.spawn_receiver(tx);
    let r3 = e.spawn_receiver(tx);
    e.set_responder(r1, 10);
    e.set_responder(r2, 20);
    e.set_responder(r3, 30);
    e.send(tx, &Value::Count(7));
    assert_eq!(e.log_len(), 3);
    assert_eq!(e.log_at(0).tag, 10);
    assert_eq!(e.log_at(1).tag, 20);
    assert_eq!(e.log_at(2).tag, 30);
    match &e.log_at(1).value {
        Value::Count(n) => assert_eq!(*n, 7),
        _ => panic!("expected a count"),
    }
}

#[test]
fn send_with_no_subscribers_is_a_no_op() {
    let mut e = Engine::new();
    let tx = e.new_transmitter();
    e.send(tx, &Value::Bool(true));
    assert_eq!(e.log_len(), 0);
}

#[test]
fn pending_replay_exactly_once() {
    let mut e = Engine::new();
    let (tx, rx) = {
        let p = e.txrx();
        (p.0, p.1)
    };
    e.send(tx, &Value::Count(1));
    assert_eq!(e.log_len(), 0);
    match e.pending_at(rx) {
        Some(Value::Count(n)) => assert_eq!(*n, 1),
        _ => panic!("expected a buffered count"),
    }
    e.set_responder(rx, 5);
    assert_eq!(e.log_len(), 1);
    assert_eq!(e.log_at(0).tag, 5);
    assert!(e.pending_at(rx).is_none());
}

#[test]
fn pending_last_write_wins() {
    let mut e = Engine::new();
    let p = e.txrx();
    e.send(p.0, &Value::Count(1));
    e.send(p.0, &Value::Count(2));
    e.set_responder(p.1, 9);
    assert_eq!(e.log_len(), 1);
    match &e.log_at(0).value {
        Value::Count(n) => assert_eq!(*n, 2),
        _ => panic!("expected a count"),
    }
    e.send(p.0, &Value::Count(3));
    assert_eq!(e.log_len(), 2);
    match &e.log_at(1).value {
        Value::Count(n) => assert_eq!(*n, 3),
        _ => panic!("expected a count"),
    }
}

#[test]
fn filter_suppression_drops_empty_text() {
    let mut e = Engine::new();
    let p = e.txrx();
    let tx2 = e.new_transmitter();
    let rx2 = e.spawn_receiver(tx2);
    e.forward_filter_map(p.1, tx2, Transform::NonEmptyText);
    e.send(p.0, &Value::Text(String::new()));
    assert_eq!(e.log_len(), 0);
    assert!(e.pending_at(rx2).is_none());
    e.send(p.0, &Value::Text("hi".to_string()));
    match e.pending_at(rx2) {
        Some(Value::Text(s)) => assert_eq!(s, "hi"),
        _ => panic!("expected buffered text"),
    }
}

#[test]
fn fold_isolation_private_states() {
    let mut e = Engine::new();
    let p = e.txrx();
    let rx_toggle = p.1;
    let rx_count = e.branch(rx_toggle);
    let t1 = e.new_transmitter();
    let t2 = e.new_transmitter();
    let o1 = e.spawn_receiver(t1);
    let o2 = e.spawn_receiver(t2);
    e.set_responder(o1, 1);
    e.set_responder(o2, 2);
    e.forward_fold(rx_toggle, t1, FoldFn::ToggleFlag, Value::Bool(false));
    e.forward_fold(rx_count, t2, FoldFn::CountUp, Value::Count(0));
    e.send(p.0, &Value::Unit);
    e.send(p.0, &Value::Unit);
    assert_eq!(e.log_len(), 4);
    assert_eq!(e.log_at(0).tag, 1);
    match &e.log_at(0).value {
        Value::Bool(b) => assert!(*b),
        _ => panic!("expected a flag"),
    }
    assert_eq!(e.log_at(1).tag, 2);
    match &e.log_at(1).value {
        Value::Count(n) => assert_eq!(*n, 1),
        _ => panic!("expected a count"),
    }
    match &e.log_at(2).value {
        Value::Bool(b) => assert!(!*b),
        _ => panic!("expected a flag"),
    }
    match &e.log_at(3).value {
        Value::Count(n) => assert_eq!(*n, 2),
        _ => panic!("expected a count"),
    }
}

#[test]
fn forward_map_transforms_and_delivers() {
    let mut e = Engine::new();
    let p = e.txrx();
    let tx2 = e.new_transmitter();
    let o = e.spawn_receiver(tx2);
    e.set_responder(o, 4);
    e.forward_map(p.1, tx2, Transform::Negate);
    e.send(p.0, &Value::Bool(true));
    assert_eq!(e.log_len(), 1);
    match &e.log_at(0).value {
        Value::Bool(b) => assert!(!*b),
        _ => panic!("expected a flag"),
    }
}

#[test]
fn cyclic_wiring_is_cut_off() {
    let mut e = Engine::new();
    let a = e.txrx();
    let b = e.txrx();
    e.forward_map(a.1, b.0, Transform::Ident);
    e.forward_map(b.1, a.0, Transform::Ident);
    e.send(a.0, &Value::Unit);
    assert_eq!(e.log_len(), 0);
}

#[test]
fn pending_value_forwarded_on_attach() {
    let mut e = Engine::new();
    let p = e.txrx();
    let tx2 = e.new_transmitter();
    let o = e.spawn_receiver(tx2);
    e.set_responder(o, 11);
    e.send(p.0, &Value::Bool(false));
    assert_eq!(e.log_len(), 0);
    e.forward_map(p.1, tx2, Transform::BoolToDisplay);
    assert_eq!(e.log_len(), 1);
    match &e.log_at(0).value {
        Value::Text(s) => assert_eq!(s, "none"),
        _ => panic!("expected text"),
    }
}
