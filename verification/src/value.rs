//! The payload type carried on the engine's channels.
//!
//! The original graph wires channels of many element types (unit clicks,
//! booleans, counts, strings, typed key events, list messages, state
//! snapshots).  To keep the subscriber registry homogeneous, the engine
//! carries one tagged value type, and each transform names the variants it
//! consumes and produces.

use vstd::prelude::*;

use crate::todo::TodoState;
use crate::todo::TodoStateV;
use crate::todo_list::TodoListMsg;
use crate::todo_list::TodoListMsgV;

verus! {

/// A key event, already parsed by the input adapter: the engine only ever
/// branches on these three cases.
#[derive(Clone, Copy, PartialEq, Eq, Structural, Debug)]
pub enum KeyEvent {
    Enter,
    Escape,
    Other,
}

/// What the todo list announces after applying one message: whether the
/// list's visibility flipped, and the new item count when it changed.
/// `None` in a field means nothing is broadcast for it.
#[derive(Clone, Copy, PartialEq, Eq, Structural, Debug)]
pub struct ListDelta {
    pub display: Option<bool>,
    pub count: Option<usize>,
}

/// One value travelling through the dataflow graph.
pub enum Value {
    Unit,
    Bool(bool),
    Count(usize),
    Text(String),
    Key(KeyEvent),
    Msg(TodoListMsg),
    State(TodoState),
    Delta(ListDelta),
}

/// The mathematical value of a `Value`.
pub enum ValueV {
    Unit,
    Bool(bool),
    Count(usize),
    Text(Seq<char>),
    Key(KeyEvent),
    Msg(TodoListMsgV),
    State(TodoStateV),
    Delta(ListDelta),
}

impl View for Value {
    type V = ValueV;

    open spec fn view(&self) -> ValueV {
        match self {
            Value::Unit => ValueV::Unit,
            Value::Bool(b) => ValueV::Bool(*b),
            Value::Count(n) => ValueV::Count(*n),
            Value::Text(s) => ValueV::Text(s@),
            Value::Key(k) => ValueV::Key(*k),
            Value::Msg(m) => ValueV::Msg(m@),
            Value::State(s) => ValueV::State(s@),
            Value::Delta(d) => ValueV::Delta(*d),
        }
    }
}

/// The mathematical value of an optional payload.
pub open spec fn opt_view(o: Option<Value>) -> Option<ValueV> {
    match o {
        Some(v) => Some(v@),
        None => None,
    }
}

impl Clone for Value {
    fn clone(&self) -> (res: Self)
        ensures
            res@ == self@,
    {
        match self {
            Value::Unit => Value::Unit,
            Value::Bool(b) => Value::Bool(*b),
            Value::Count(n) => Value::Count(*n),
            Value::Text(s) => Value::Text(s.clone()),
            Value::Key(k) => Value::Key(*k),
            Value::Msg(m) => Value::Msg(m.clone()),
            Value::State(s) => Value::State(s.clone()),
            Value::Delta(d) => Value::Delta(*d),
        }
    }
}

} // verus!
