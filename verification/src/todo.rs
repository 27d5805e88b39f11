//! The shared state cell of a single todo item.
//!
//! One `TodoState` is shared by several independent wiring rules (toggle
//! completion, start editing, commit an edited name, cancel an edit).
//! Every rule applies exactly one of the transitions below as a single
//! atomic step; the engine propagates a projection of the state only after
//! the step is complete.  The state machine is `{Viewing, Editing}` crossed
//! with the completion flag: `start_edit` moves from Viewing to Editing,
//! `commit` and `cancel` move back, and `toggle` flips the flag while
//! Viewing.  A transition taken from a state it is not valid in is a no-op,
//! never a partial mutation.

use vstd::prelude::*;

verus! {

/// The state record of one todo item: its display name, the completion
/// flag, whether it is currently being edited, and the text standing in
/// the edit field.
pub struct TodoState {
    pub name: String,
    pub is_done: bool,
    pub is_editing: bool,
    pub edit_text: String,
}

/// The mathematical value of a `TodoState`: the same fields with the
/// strings abstracted to character sequences.
pub struct TodoStateV {
    pub name: Seq<char>,
    pub is_done: bool,
    pub is_editing: bool,
    pub edit_text: Seq<char>,
}

impl View for TodoState {
    type V = TodoStateV;

    open spec fn view(&self) -> TodoStateV {
        TodoStateV {
            name: self.name@,
            is_done: self.is_done,
            is_editing: self.is_editing,
            edit_text: self.edit_text@,
        }
    }
}

/// Well-formedness of a todo cell: while the item is not being edited the
/// edit field shows the item's name.  Every transition preserves this.
pub open spec fn todo_inv(s: TodoStateV) -> bool {
    !s.is_editing ==> s.edit_text == s.name
}

/// `Viewing -> Editing`; a no-op when already editing.
pub open spec fn spec_start_edit(s: TodoStateV) -> TodoStateV {
    if !s.is_editing {
        TodoStateV { is_editing: true, ..s }
    } else {
        s
    }
}

/// `Editing -> Viewing`, persisting the new name into both the display
/// name and the edit field; a no-op when not editing.
pub open spec fn spec_commit(s: TodoStateV, name: Seq<char>) -> TodoStateV {
    if s.is_editing {
        TodoStateV { is_editing: false, name: name, edit_text: name, ..s }
    } else {
        s
    }
}

/// `Editing -> Viewing`, reverting the edit field to the unchanged display
/// name; a no-op when not editing.
pub open spec fn spec_cancel(s: TodoStateV) -> TodoStateV {
    if s.is_editing {
        TodoStateV { is_editing: false, edit_text: s.name, ..s }
    } else {
        s
    }
}

/// `Viewing -> Viewing`, flipping the completion flag; a no-op while
/// editing, since toggling is not a transition of the Editing state.
pub open spec fn spec_toggle(s: TodoStateV) -> TodoStateV {
    if !s.is_editing {
        TodoStateV { is_done: !s.is_done, ..s }
    } else {
        s
    }
}

/// Overwrites the completion flag with a value already decided upstream.
pub open spec fn spec_set_done(s: TodoStateV, done: bool) -> TodoStateV {
    if !s.is_editing {
        TodoStateV { is_done: done, ..s }
    } else {
        s
    }
}

/// Replaces the text standing in the edit field; effective only while
/// editing, as the edit field is not shown otherwise.
pub open spec fn spec_set_edit_text(s: TodoStateV, t: Seq<char>) -> TodoStateV {
    if s.is_editing {
        TodoStateV { edit_text: t, ..s }
    } else {
        s
    }
}

impl Clone for TodoState {
    fn clone(&self) -> (res: Self)
        ensures
            res@ == self@,
    {
        TodoState {
            name: self.name.clone(),
            is_done: self.is_done,
            is_editing: self.is_editing,
            edit_text: self.edit_text.clone(),
        }
    }
}

impl TodoState {
    /// A fresh, not-completed, not-editing item; the edit field starts out
    /// showing the name.
    pub fn new(name: String) -> (s: TodoState)
        ensures
            s@ == (TodoStateV {
                name: name@,
                is_done: false,
                is_editing: false,
                edit_text: name@,
            }),
            todo_inv(s@),
    {
        let edit_text = name.clone();
        TodoState { name, is_done: false, is_editing: false, edit_text }
    }

    pub fn start_edit(&mut self)
        ensures
            final(self)@ == spec_start_edit(old(self)@),
    {
        if !self.is_editing {
            self.is_editing = true;
        }
    }

    pub fn commit(&mut self, name: &String)
        ensures
            final(self)@ == spec_commit(old(self)@, name@),
    {
        if self.is_editing {
            self.is_editing = false;
            self.name = name.clone();
            self.edit_text = name.clone();
        }
    }

    pub fn cancel(&mut self)
        ensures
            final(self)@ == spec_cancel(old(self)@),
    {
        if self.is_editing {
            self.is_editing = false;
            self.edit_text = self.name.clone();
        }
    }

    pub fn toggle(&mut self)
        ensures
            final(self)@ == spec_toggle(old(self)@),
    {
        if !self.is_editing {
            self.is_done = !self.is_done;
        }
    }

    pub fn set_done(&mut self, done: bool)
        ensures
            final(self)@ == spec_set_done(old(self)@, done),
    {
        if !self.is_editing {
            self.is_done = done;
        }
    }

    pub fn set_edit_text(&mut self, t: &String)
        ensures
            final(self)@ == spec_set_edit_text(old(self)@, t@),
    {
        if self.is_editing {
            self.edit_text = t.clone();
        }
    }
}

/// Every transition of the shared cell preserves well-formedness: no step
/// can leave the record half-mutated.
pub proof fn lemma_todo_transitions_preserve_inv(s: TodoStateV, name: Seq<char>, done: bool)
    requires
        todo_inv(s),
    ensures
        todo_inv(spec_start_edit(s)),
        todo_inv(spec_commit(s, name)),
        todo_inv(spec_cancel(s)),
        todo_inv(spec_toggle(s)),
        todo_inv(spec_set_done(s, done)),
        todo_inv(spec_set_edit_text(s, name)),
{
}

} // verus!
