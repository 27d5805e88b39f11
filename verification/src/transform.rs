//! The combinator layer: every wiring rule of the graph is one of a closed
//! set of transform functions, dispatched by variant rather than by ad hoc
//! callbacks, so the subscriber registry stays homogeneous and every rule
//! has an exact mathematical description.
//!
//! Three families exist: pure transforms (map and filter-map rules),
//! private folds (state owned by the rule alone), and shared-cell steps
//! (state shared between several rules, mutated in one atomic step each).

use vstd::prelude::*;

use crate::label::bool_to_display;
use crate::label::items_left_label;
use crate::label::spec_display_style;
use crate::label::spec_items_left;
use crate::todo::TodoState;
use crate::todo::TodoStateV;
use crate::todo_list::spec_remove_todo;
use crate::todo_list::spec_update_name;
use crate::todo_list::TodoList;
use crate::todo_list::TodoListMsg;
use crate::todo_list::TodoListMsgV;
use crate::todo_list::TodoListV;
use crate::todo_list::TodoV;
use crate::value::KeyEvent;
use crate::value::opt_view;
use crate::value::ListDelta;
use crate::value::Value;
use crate::value::ValueV;

verus! {

/// The CSS class of a todo item's row: editing takes precedence over
/// completion.
pub open spec fn spec_state_class(s: TodoStateV) -> Seq<char> {
    if s.is_editing {
        "editing"@
    } else if s.is_done {
        "completed"@
    } else {
        ""@
    }
}

/// A pure transform: one map or filter-map rule.  A rule consumes the
/// variant it names and suppresses every other variant, which is the
/// "zero values propagated" case of normal control flow, never an error.
#[derive(Clone, Copy, PartialEq, Eq, Structural, Debug)]
pub enum Transform {
    /// Passes the value through unchanged.
    Ident,
    /// Discards the payload, keeping only the event itself.
    ToUnit,
    /// Flips a boolean.
    Negate,
    /// A boolean visibility into the CSS display style showing or hiding
    /// an element.
    BoolToDisplay,
    /// A remaining-item count into the footer label text.
    ItemsLeft,
    /// Any text into the empty string (clears the entry field after a
    /// todo is accepted).
    ClearText,
    /// Suppresses empty text, passing non-empty text through (drops blank
    /// entries before they ever become todos).
    NonEmptyText,
    /// Text into the message adding a todo of that name.
    TextToAdd,
    /// Text into the message renaming the todo of the carried index
    /// (wired behind a committed edit).
    ToUpdateName(usize),
    /// Any value into the message removing the todo of the carried index
    /// (wired under a row's destroy button).
    ToRemove(usize),
    /// A state snapshot into the row's CSS class.
    StateToClass,
    /// A state snapshot into the item's display name.
    StateName,
    /// A state snapshot into the item's completion flag.
    StateDone,
    /// The visibility field of a list delta, when present.
    DeltaDisplay,
    /// The count field of a list delta, when present.
    DeltaCount,
}

/// What a pure transform yields on a given value: `None` suppresses
/// propagation for that value.
pub open spec fn spec_apply(t: Transform, v: ValueV) -> Option<ValueV> {
    match t {
        Transform::Ident => Some(v),
        Transform::ToUnit => Some(ValueV::Unit),
        Transform::Negate => match v {
            ValueV::Bool(b) => Some(ValueV::Bool(!b)),
            _ => None,
        },
        Transform::BoolToDisplay => match v {
            ValueV::Bool(b) => Some(ValueV::Text(spec_display_style(b))),
            _ => None,
        },
        Transform::ItemsLeft => match v {
            ValueV::Count(n) => Some(ValueV::Text(spec_items_left(n as int))),
            _ => None,
        },
        Transform::ClearText => match v {
            ValueV::Text(_) => Some(ValueV::Text(Seq::empty())),
            _ => None,
        },
        Transform::NonEmptyText => match v {
            ValueV::Text(s) => if s.len() > 0 {
                Some(ValueV::Text(s))
            } else {
                None
            },
            _ => None,
        },
        Transform::TextToAdd => match v {
            ValueV::Text(s) => Some(ValueV::Msg(TodoListMsgV::TodoAdd(s))),
            _ => None,
        },
        Transform::ToUpdateName(i) => match v {
            ValueV::Text(s) => Some(ValueV::Msg(TodoListMsgV::TodoUpdateName(i, s))),
            _ => None,
        },
        Transform::ToRemove(i) => Some(ValueV::Msg(TodoListMsgV::TodoRemove(i))),
        Transform::StateToClass => match v {
            ValueV::State(s) => Some(ValueV::Text(spec_state_class(s))),
            _ => None,
        },
        Transform::StateName => match v {
            ValueV::State(s) => Some(ValueV::Text(s.name)),
            _ => None,
        },
        Transform::StateDone => match v {
            ValueV::State(s) => Some(ValueV::Bool(s.is_done)),
            _ => None,
        },
        Transform::DeltaDisplay => match v {
            ValueV::Delta(d) => match d.display {
                Some(b) => Some(ValueV::Bool(b)),
                None => None,
            },
            _ => None,
        },
        Transform::DeltaCount => match v {
            ValueV::Delta(d) => match d.count {
                Some(n) => Some(ValueV::Count(n)),
                None => None,
            },
            _ => None,
        },
    }
}

/// Builds the show/hide projection rule wired between the display channel
/// and the style bindings.
pub fn mk_bool_to_display() -> (t: Transform)
    ensures
        t == Transform::BoolToDisplay,
{
    Transform::BoolToDisplay
}

/// Runs one pure transform; `None` means the value is suppressed and
/// nothing is propagated downstream.
pub fn apply_transform(t: Transform, v: &Value) -> (out: Option<Value>)
    ensures
        opt_view(out) == spec_apply(t, v@),
{
    match t {
        Transform::Ident => Some(v.clone()),
        Transform::ToUnit => Some(Value::Unit),
        Transform::Negate => match v {
            Value::Bool(b) => Some(Value::Bool(!*b)),
            _ => None,
        },
        Transform::BoolToDisplay => match v {
            Value::Bool(b) => Some(Value::Text(bool_to_display(*b))),
            _ => None,
        },
        Transform::ItemsLeft => match v {
            Value::Count(n) => Some(Value::Text(items_left_label(*n))),
            _ => None,
        },
        Transform::ClearText => match v {
            Value::Text(_) => Some(Value::Text(String::new())),
            _ => None,
        },
        Transform::NonEmptyText => match v {
            Value::Text(s) => if !s.as_str().is_empty() {
                Some(Value::Text(s.clone()))
            } else {
                None
            },
            _ => None,
        },
        Transform::TextToAdd => match v {
            Value::Text(s) => Some(Value::Msg(TodoListMsg::TodoAdd(s.clone()))),
            _ => None,
        },
        Transform::ToUpdateName(i) => match v {
            Value::Text(s) => Some(Value::Msg(TodoListMsg::TodoUpdateName(i, s.clone()))),
            _ => None,
        },
        Transform::ToRemove(i) => Some(Value::Msg(TodoListMsg::TodoRemove(i))),
        Transform::StateToClass => match v {
            Value::State(s) => {
                let class = if s.is_editing {
                    String::from_str("editing")
                } else if s.is_done {
                    String::from_str("completed")
                } else {
                    String::from_str("")
                };
                Some(Value::Text(class))
            },
            _ => None,
        },
        Transform::StateName => match v {
            Value::State(s) => Some(Value::Text(s.name.clone())),
            _ => None,
        },
        Transform::StateDone => match v {
            Value::State(s) => Some(Value::Bool(s.is_done)),
            _ => None,
        },
        Transform::DeltaDisplay => match v {
            Value::Delta(d) => match d.display {
                Some(b) => Some(Value::Bool(b)),
                None => None,
            },
            _ => None,
        },
        Transform::DeltaCount => match v {
            Value::Delta(d) => match d.count {
                Some(n) => Some(Value::Count(n)),
                None => None,
            },
            _ => None,
        },
    }
}

/// A fold rule over private state: the state is owned by the single rule
/// holding it and is invisible to every other rule.
#[derive(Clone, Copy, PartialEq, Eq, Structural, Debug)]
pub enum FoldFn {
    /// Flips a private boolean on every input and emits the new flag.
    ToggleFlag,
    /// Counts inputs (saturating at the machine limit) and emits the new
    /// count.
    CountUp,
}

/// One step of a private fold: the new private state and the emitted
/// value, if any.  A state of an unexpected variant is left untouched.
pub open spec fn spec_fold_step(f: FoldFn, st: ValueV, v: ValueV) -> (ValueV, Option<ValueV>) {
    match f {
        FoldFn::ToggleFlag => match st {
            ValueV::Bool(b) => (ValueV::Bool(!b), Some(ValueV::Bool(!b))),
            _ => (st, None),
        },
        FoldFn::CountUp => match st {
            ValueV::Count(n) => {
                let n2 = if n < usize::MAX {
                    (n + 1) as usize
                } else {
                    n
                };
                (ValueV::Count(n2), Some(ValueV::Count(n2)))
            },
            _ => (st, None),
        },
    }
}

/// Runs one private fold step.
pub fn fold_step(f: FoldFn, st: &Value, v: &Value) -> (res: (Value, Option<Value>))
    ensures
        res.0@ == spec_fold_step(f, st@, v@).0,
        opt_view(res.1) == spec_fold_step(f, st@, v@).1,
{
    match f {
        FoldFn::ToggleFlag => match st {
            Value::Bool(b) => (Value::Bool(!*b), Some(Value::Bool(!*b))),
            _ => (st.clone(), None),
        },
        FoldFn::CountUp => match st {
            Value::Count(n) => {
                let n2 = if *n < usize::MAX {
                    *n + 1
                } else {
                    *n
                };
                (Value::Count(n2), Some(Value::Count(n2)))
            },
            _ => (st.clone(), None),
        },
    }
}

/// A state object shared by several wiring rules: either one todo item's
/// record or the todo list itself.  The engine owns the cell and mutates
/// it only inside a single delivery step, which is the mutual-exclusion
/// discipline of the original guarded cell.
pub enum SharedCell {
    Item(TodoState),
    List(TodoList),
}

/// The mathematical value of a `SharedCell`.
pub enum SharedCellV {
    Item(TodoStateV),
    List(TodoListV),
}

impl View for SharedCell {
    type V = SharedCellV;

    open spec fn view(&self) -> SharedCellV {
        match self {
            SharedCell::Item(s) => SharedCellV::Item(s@),
            SharedCell::List(l) => SharedCellV::List(l@),
        }
    }
}

impl Clone for SharedCell {
    fn clone(&self) -> (res: Self)
        ensures
            res@ == self@,
    {
        match self {
            SharedCell::Item(s) => SharedCell::Item(s.clone()),
            SharedCell::List(l) => SharedCell::List(l.clone()),
        }
    }
}

/// A fold rule over a shared cell: each variant is one atomic critical
/// section of acquire, apply a single transition, read a projection back,
/// release.  The projection is propagated only after the step, never from
/// inside it.
#[derive(Clone, Copy, PartialEq, Eq, Structural, Debug)]
pub enum SharedFn {
    /// Flips the item's completion flag and emits the new flag.
    ToggleDone,
    /// Overwrites the completion flag with the boolean input and emits
    /// the full state snapshot.
    SetDone,
    /// Enters editing and emits the full state snapshot.
    StartEdit,
    /// Leaves editing with the text input as the new name and emits the
    /// full state snapshot; inert (no mutation, no emission) when the
    /// item is not being edited.
    CommitName,
    /// Leaves editing, reverting the edit field, and emits the full state
    /// snapshot; inert when the item is not being edited.
    CancelEdit,
    /// Acts on a key event in the edit field: enter emits the edited text
    /// for a commit, escape reverts the edit field and emits the old name,
    /// any other key emits nothing.  Inert when the item is not being
    /// edited.
    EditKey,
    /// Emits the edited text for a commit when the edit field loses
    /// focus; inert when the item is not being edited.
    BlurCommit,
    /// Overwrites the edit field's text and emits nothing.
    SetEditText,
    /// Applies one list message to the list cell and emits the list's
    /// delta announcement.
    ListApply,
}

/// One list message applied to the list: the new list and its delta
/// announcement.  Visibility is announced exactly when the list becomes
/// non-empty or empty; the count is announced exactly when it changed.
/// An add that would exhaust the index counter leaves the list unchanged.
pub open spec fn spec_list_step(l: TodoListV, m: TodoListMsgV) -> (TodoListV, ListDelta) {
    let l2 = match m {
        TodoListMsgV::TodoAdd(name) => if l.next_index < usize::MAX {
            TodoListV {
                next_index: (l.next_index + 1) as usize,
                todos: l.todos.push(TodoV { index: l.next_index, name: name }),
            }
        } else {
            l
        },
        TodoListMsgV::TodoRemove(i) => TodoListV {
            next_index: l.next_index,
            todos: spec_remove_todo(l.todos, i),
        },
        TodoListMsgV::TodoUpdateName(i, name) => TodoListV {
            next_index: l.next_index,
            todos: spec_update_name(l.todos, i, name),
        },
    };
    let before = l.todos.len();
    let after = l2.todos.len();
    let display = if before == 0 && after == 1 {
        Some(true)
    } else if after == 0 && before == 1 {
        Some(false)
    } else {
        None
    };
    let count = if before != after {
        Some(after as usize)
    } else {
        None
    };
    (l2, ListDelta { display, count })
}

/// One step of a shared-cell fold: the new cell contents and the emitted
/// projection, if any.  A rule applied to a cell of the wrong shape, or
/// fed a value of the wrong variant, changes nothing and emits nothing;
/// likewise a commit, cancel, edit key or blur delivered while the item
/// is not being edited is a complete no-op — it neither mutates the cell
/// nor propagates anything, so no stale snapshot, name or rename message
/// ever leaves an invalid transition.
pub open spec fn spec_cell_step(c: SharedCellV, f: SharedFn, v: ValueV) -> (
    SharedCellV,
    Option<ValueV>,
) {
    match f {
        SharedFn::ToggleDone => match c {
            SharedCellV::Item(s) => {
                let s2 = crate::todo::spec_toggle(s);
                (SharedCellV::Item(s2), Some(ValueV::Bool(s2.is_done)))
            },
            _ => (c, None),
        },
        SharedFn::SetDone => match (c, v) {
            (SharedCellV::Item(s), ValueV::Bool(b)) => {
                let s2 = crate::todo::spec_set_done(s, b);
                (SharedCellV::Item(s2), Some(ValueV::State(s2)))
            },
            _ => (c, None),
        },
        SharedFn::StartEdit => match c {
            SharedCellV::Item(s) => {
                let s2 = crate::todo::spec_start_edit(s);
                (SharedCellV::Item(s2), Some(ValueV::State(s2)))
            },
            _ => (c, None),
        },
        SharedFn::CommitName => match (c, v) {
            (SharedCellV::Item(s), ValueV::Text(t)) => if s.is_editing {
                let s2 = crate::todo::spec_commit(s, t);
                (SharedCellV::Item(s2), Some(ValueV::State(s2)))
            } else {
                (c, None)
            },
            _ => (c, None),
        },
        SharedFn::CancelEdit => match c {
            SharedCellV::Item(s) => if s.is_editing {
                let s2 = crate::todo::spec_cancel(s);
                (SharedCellV::Item(s2), Some(ValueV::State(s2)))
            } else {
                (c, None)
            },
            _ => (c, None),
        },
        SharedFn::EditKey => match (c, v) {
            (SharedCellV::Item(s), ValueV::Key(k)) => if s.is_editing {
                match k {
                    KeyEvent::Enter => (SharedCellV::Item(s), Some(ValueV::Text(s.edit_text))),
                    KeyEvent::Escape => (
                        SharedCellV::Item(crate::todo::spec_set_edit_text(s, s.name)),
                        Some(ValueV::Text(s.name)),
                    ),
                    KeyEvent::Other => (SharedCellV::Item(s), None),
                }
            } else {
                (c, None)
            },
            _ => (c, None),
        },
        SharedFn::BlurCommit => match c {
            SharedCellV::Item(s) => if s.is_editing {
                (SharedCellV::Item(s), Some(ValueV::Text(s.edit_text)))
            } else {
                (c, None)
            },
            _ => (c, None),
        },
        SharedFn::SetEditText => match (c, v) {
            (SharedCellV::Item(s), ValueV::Text(t)) => (
                SharedCellV::Item(crate::todo::spec_set_edit_text(s, t)),
                None,
            ),
            _ => (c, None),
        },
        SharedFn::ListApply => match (c, v) {
            (SharedCellV::List(l), ValueV::Msg(m)) => {
                let (l2, d) = spec_list_step(l, m);
                (SharedCellV::List(l2), Some(ValueV::Delta(d)))
            },
            _ => (c, None),
        },
    }
}

/// Runs one shared-cell step in place and returns the projection to
/// propagate, if any.
pub fn cell_step(c: &mut SharedCell, f: SharedFn, v: &Value) -> (out: Option<Value>)
    ensures
        final(c)@ == spec_cell_step(old(c)@, f, v@).0,
        opt_view(out) == spec_cell_step(old(c)@, f, v@).1,
{
    match f {
        SharedFn::ToggleDone => match c {
            SharedCell::Item(s) => {
                s.toggle();
                Some(Value::Bool(s.is_done))
            },
            _ => None,
        },
        SharedFn::SetDone => match (&mut *c, v) {
            (SharedCell::Item(s), Value::Bool(b)) => {
                s.set_done(*b);
                Some(Value::State(s.clone()))
            },
            _ => None,
        },
        SharedFn::StartEdit => match c {
            SharedCell::Item(s) => {
                s.start_edit();
                Some(Value::State(s.clone()))
            },
            _ => None,
        },
        SharedFn::CommitName => match (&mut *c, v) {
            (SharedCell::Item(s), Value::Text(t)) => if s.is_editing {
                s.commit(t);
                Some(Value::State(s.clone()))
            } else {
                None
            },
            _ => None,
        },
        SharedFn::CancelEdit => match c {
            SharedCell::Item(s) => if s.is_editing {
                s.cancel();
                Some(Value::State(s.clone()))
            } else {
                None
            },
            _ => None,
        },
        SharedFn::EditKey => match (&mut *c, v) {
            (SharedCell::Item(s), Value::Key(k)) => if s.is_editing {
                match k {
                    KeyEvent::Enter => Some(Value::Text(s.edit_text.clone())),
                    KeyEvent::Escape => {
                        let name = s.name.clone();
                        s.set_edit_text(&name);
                        Some(Value::Text(name))
                    },
                    KeyEvent::Other => None,
                }
            } else {
                None
            },
            _ => None,
        },
        SharedFn::BlurCommit => match c {
            SharedCell::Item(s) => if s.is_editing {
                Some(Value::Text(s.edit_text.clone()))
            } else {
                None
            },
            _ => None,
        },
        SharedFn::SetEditText => match (&mut *c, v) {
            (SharedCell::Item(s), Value::Text(t)) => {
                s.set_edit_text(t);
                None
            },
            _ => None,
        },
        SharedFn::ListApply => match (&mut *c, v) {
            (SharedCell::List(l), Value::Msg(m)) => {
                let d = apply_list_msg(l, m);
                Some(Value::Delta(d))
            },
            _ => None,
        },
    }
}

/// Applies one message to the todo list and computes its delta
/// announcement.
pub fn apply_list_msg(l: &mut TodoList, m: &TodoListMsg) -> (d: ListDelta)
    ensures
        final(l)@ == spec_list_step(old(l)@, m@).0,
        d == spec_list_step(old(l)@, m@).1,
{
    let before = l.len();
    match m {
        TodoListMsg::TodoAdd(name) => {
            if l.next_index < usize::MAX {
                l.add_todo(name.clone());
            }
        },
        TodoListMsg::TodoRemove(i) => {
            l.remove_todo(*i);
        },
        TodoListMsg::TodoUpdateName(i, name) => {
            l.update_name(*i, name);
        },
    }
    let after = l.len();
    let display = if before == 0 && after == 1 {
        Some(true)
    } else if after == 0 && before == 1 {
        Some(false)
    } else {
        None
    };
    let count = if before != after {
        Some(after)
    } else {
        None
    };
    ListDelta { display, count }
}

} // verus!
