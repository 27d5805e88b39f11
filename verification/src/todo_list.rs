//! The todo-list component: an ordered collection of items driven by a
//! message enum, together with the decision of what the list broadcasts
//! after each change (whether the list display toggles, and whether the
//! item count changed).

use vstd::prelude::*;

verus! {

/// The messages a todo list reacts to.
pub enum TodoListMsg {
    TodoAdd(String),
    TodoRemove(usize),
    TodoUpdateName(usize, String),
}

/// The mathematical value of a `TodoListMsg`.
pub enum TodoListMsgV {
    TodoAdd(Seq<char>),
    TodoRemove(usize),
    TodoUpdateName(usize, Seq<char>),
}

impl View for TodoListMsg {
    type V = TodoListMsgV;

    open spec fn view(&self) -> TodoListMsgV {
        match self {
            TodoListMsg::TodoAdd(name) => TodoListMsgV::TodoAdd(name@),
            TodoListMsg::TodoRemove(i) => TodoListMsgV::TodoRemove(*i),
            TodoListMsg::TodoUpdateName(i, name) => TodoListMsgV::TodoUpdateName(*i, name@),
        }
    }
}

impl Clone for TodoListMsg {
    fn clone(&self) -> (res: Self)
        ensures
            res@ == self@,
    {
        match self {
            TodoListMsg::TodoAdd(name) => TodoListMsg::TodoAdd(name.clone()),
            TodoListMsg::TodoRemove(i) => TodoListMsg::TodoRemove(*i),
            TodoListMsg::TodoUpdateName(i, name) => TodoListMsg::TodoUpdateName(*i, name.clone()),
        }
    }
}

/// One entry of the list: a stable index handed out at creation time, and
/// the item's display name.
pub struct Todo {
    pub index: usize,
    pub name: String,
}

/// The mathematical value of a `Todo`.
pub struct TodoV {
    pub index: usize,
    pub name: Seq<char>,
}

impl View for Todo {
    type V = TodoV;

    open spec fn view(&self) -> TodoV {
        TodoV { index: self.index, name: self.name@ }
    }
}

impl Clone for Todo {
    fn clone(&self) -> (res: Self)
        ensures
            res@ == self@,
    {
        Todo { index: self.index, name: self.name.clone() }
    }
}

impl Todo {
    pub fn new(index: usize, name: String) -> (t: Todo)
        ensures
            t@ == (TodoV { index: index, name: name@ }),
    {
        Todo { index, name }
    }
}

/// The todo list: entries in creation order, and the monotonic counter
/// that hands each new entry its stable index.
pub struct TodoList {
    pub next_index: usize,
    pub todos: Vec<Todo>,
}

/// The mathematical value of a `TodoList`.
pub struct TodoListV {
    pub next_index: usize,
    pub todos: Seq<TodoV>,
}

impl View for TodoList {
    type V = TodoListV;

    open spec fn view(&self) -> TodoListV {
        TodoListV { next_index: self.next_index, todos: self.todos@.map_values(|t: Todo| t@) }
    }
}

impl Clone for TodoList {
    fn clone(&self) -> (res: Self)
        ensures
            res@ == self@,
    {
        let mut todos: Vec<Todo> = Vec::new();
        let mut i: usize = 0;
        while i < self.todos.len()
            invariant
                i <= self.todos.len(),
                todos@.len() == i,
                forall|k: int| 0 <= k < i ==> #[trigger] todos@[k]@ == self.todos@[k]@,
            decreases self.todos.len() - i,
        {
            todos.push(self.todos[i].clone());
            i += 1;
        }
        proof {
            assert(todos@.map_values(|t: Todo| t@) =~= self.todos@.map_values(|t: Todo| t@));
        }
        TodoList { next_index: self.next_index, todos }
    }
}

/// What remains of `todos` after removing every entry carrying the stable
/// index `index` (creation hands out unique indexes, so at most one).
pub open spec fn spec_remove_todo(todos: Seq<TodoV>, index: usize) -> Seq<TodoV>
    decreases todos.len(),
{
    if todos.len() == 0 {
        Seq::empty()
    } else {
        let rest = spec_remove_todo(todos.drop_last(), index);
        if todos.last().index == index {
            rest
        } else {
            rest.push(todos.last())
        }
    }
}

/// `todos` with the name of every entry carrying the stable index `index`
/// replaced by `name`.
pub open spec fn spec_update_name(todos: Seq<TodoV>, index: usize, name: Seq<char>) -> Seq<TodoV> {
    todos.map_values(
        |t: TodoV|
            if t.index == index {
                TodoV { index: t.index, name: name }
            } else {
                t
            },
    )
}

impl TodoList {
    /// A fresh, empty list whose first entry will get index 0.
    pub fn new() -> (l: TodoList)
        ensures
            l@ == (TodoListV { next_index: 0, todos: Seq::empty() }),
    {
        let l = TodoList { next_index: 0, todos: Vec::new() };
        proof {
            assert(l@.todos =~= Seq::<TodoV>::empty());
        }
        l
    }

    /// Appends a new entry named `name` under the next free index and
    /// advances the index counter.
    pub fn add_todo(&mut self, name: String)
        requires
            old(self).next_index < usize::MAX,
        ensures
            final(self)@ == (TodoListV {
                next_index: (old(self).next_index + 1) as usize,
                todos: old(self)@.todos.push(TodoV { index: old(self).next_index, name: name@ }),
            }),
    {
        let todo = Todo::new(self.next_index, name);
        self.todos.push(todo);
        self.next_index = self.next_index + 1;
        proof {
            assert(self@.todos =~= old(self)@.todos.push(
                TodoV { index: old(self).next_index, name: self.todos@.last().name@ },
            ));
        }
    }

    /// Drops every entry whose stable index is `index`; the counter is not
    /// reused.
    pub fn remove_todo(&mut self, index: usize)
        ensures
            final(self)@ == (TodoListV {
                next_index: old(self).next_index,
                todos: spec_remove_todo(old(self)@.todos, index),
            }),
    {
        let mut kept: Vec<Todo> = Vec::new();
        let mut i: usize = 0;
        while i < self.todos.len()
            invariant
                i <= self.todos.len(),
                kept@.map_values(|t: Todo| t@) == spec_remove_todo(
                    self.todos@.take(i as int).map_values(|t: Todo| t@),
                    index,
                ),
                self.todos == old(self).todos,
            decreases self.todos.len() - i,
        {
            proof {
                assert(self.todos@.take(i + 1 as int).drop_last() =~= self.todos@.take(i as int));
                assert(self.todos@.take(i + 1 as int).map_values(|t: Todo| t@).drop_last() =~= self
                    .todos@.take(i as int).map_values(|t: Todo| t@));
                assert(self.todos@.take(i + 1 as int).map_values(|t: Todo| t@).last() == self
                    .todos@[i as int]@);
            }
            if self.todos[i].index != index {
                kept.push(self.todos[i].clone());
            }
            i += 1;
        }
        proof {
            assert(self.todos@.take(self.todos@.len() as int) =~= self.todos@);
        }
        self.todos = kept;
    }

    /// Renames every entry whose stable index is `index`; entries under
    /// other indexes are untouched, and an absent index changes nothing.
    pub fn update_name(&mut self, index: usize, name: &String)
        ensures
            final(self)@ == (TodoListV {
                next_index: old(self).next_index,
                todos: spec_update_name(old(self)@.todos, index, name@),
            }),
    {
        let mut renamed: Vec<Todo> = Vec::new();
        let mut i: usize = 0;
        while i < self.todos.len()
            invariant
                i <= self.todos.len(),
                renamed@.len() == i,
                self.todos == old(self).todos,
                forall|k: int|
                    0 <= k < i ==> #[trigger] renamed@[k]@ == (if self.todos@[k]@.index == index {
                        TodoV { index: self.todos@[k]@.index, name: name@ }
                    } else {
                        self.todos@[k]@
                    }),
            decreases self.todos.len() - i,
        {
            if self.todos[i].index != index {
                renamed.push(self.todos[i].clone());
            } else {
                renamed.push(Todo::new(self.todos[i].index, name.clone()));
            }
            i += 1;
        }
        proof {
            assert(renamed@.map_values(|t: Todo| t@) =~= spec_update_name(
                self.todos@.map_values(|t: Todo| t@),
                index,
                name@,
            ));
        }
        self.todos = renamed;
    }

    /// The number of entries currently in the list.
    pub fn len(&self) -> (n: usize)
        ensures
            n == self@.todos.len(),
    {
        self.todos.len()
    }

    /// The entry at position `at` in creation order.
    pub fn get(&self, at: usize) -> (t: Option<&Todo>)
        ensures
            match t {
                Some(t) => at < self@.todos.len() && t@ == self@.todos[at as int],
                None => at >= self@.todos.len(),
            },
    {
        if at < self.todos.len() {
            Some(&self.todos[at])
        } else {
            None
        }
    }

    /// Editing state lives in each item's shared cell, not in the list;
    /// the list itself is unchanged when an item enters an edit.
    pub fn start_editing(&mut self)
        ensures
            final(self)@ == old(self)@,
    {
    }

    /// The counterpart of `start_editing`: the list is unchanged when an
    /// item leaves an edit.
    pub fn end_editing(&mut self)
        ensures
            final(self)@ == old(self)@,
    {
    }
}

} // verus!
