//! The list of tasks and the selection in it.

use crate::todo::Todo;
use vstd::prelude::*;

verus! {

/// The state of a list on screen: which item is selected, if any, and which
/// item is drawn first. The selected index need not name an item: stepping
/// moves it without regard to the list, and `fit` brings it back into the
/// list, as drawing the list does.
#[derive(Clone, Copy, Debug, Default, PartialEq, Eq, Structural)]
pub struct SelectState {
    pub offset: usize,
    pub selected: Option<usize>,
}

impl SelectState {
    /// The state after `index` is selected. Selecting nothing also moves the
    /// list back to its first item.
    pub open spec fn after_select(self, index: Option<usize>) -> SelectState {
        SelectState {
            offset: if index is None {
                0
            } else {
                self.offset
            },
            selected: index,
        }
    }

    /// The index after the selected one; the first one where nothing is
    /// selected.
    pub open spec fn next(self) -> usize {
        match self.selected {
            Some(i) => if i < usize::MAX {
                (i + 1) as usize
            } else {
                i
            },
            None => 0,
        }
    }

    /// The index before the selected one; the greatest one where nothing is
    /// selected.
    pub open spec fn previous(self) -> usize {
        match self.selected {
            Some(i) => if i > 0 {
                (i - 1) as usize
            } else {
                0
            },
            None => usize::MAX,
        }
    }

    /// The state brought into a list of `len` items: nothing is selected in
    /// an empty list, the last item where the index lies behind it.
    pub open spec fn fitted(self, len: nat) -> SelectState {
        if len == 0 {
            self.after_select(None)
        } else {
            match self.selected {
                Some(i) if i >= len => self.after_select(Some((len - 1) as usize)),
                _ => self,
            }
        }
    }

    /// The selected index.
    pub fn selected(&self) -> (r: Option<usize>)
        ensures
            r == self.selected,
    {
        self.selected
    }

    /// Selects `index`, or nothing.
    pub fn select(&mut self, index: Option<usize>)
        ensures
            *final(self) == old(self).after_select(index),
    {
        self.selected = index;
        if index.is_none() {
            self.offset = 0;
        }
    }

    /// Selects the next index.
    pub fn select_next(&mut self)
        ensures
            *final(self) == old(self).after_select(Some(old(self).next())),
    {
        let next: usize = match self.selected {
            Some(i) => if i < usize::MAX {
                i + 1
            } else {
                i
            },
            None => 0,
        };
        self.select(Some(next));
    }

    /// Selects the index before.
    pub fn select_previous(&mut self)
        ensures
            *final(self) == old(self).after_select(Some(old(self).previous())),
    {
        let previous: usize = match self.selected {
            Some(i) => if i > 0 {
                i - 1
            } else {
                0
            },
            None => usize::MAX,
        };
        self.select(Some(previous));
    }

    /// Brings the selection into a list of `len` items.
    pub fn fit(&mut self, len: usize)
        ensures
            *final(self) == old(self).fitted(len as nat),
    {
        if len == 0 {
            self.select(None);
        } else {
            match self.selected {
                Some(i) => {
                    if i >= len {
                        self.select(Some(len - 1));
                    }
                },
                None => {},
            }
        }
    }
}

/// The tasks and the selection among them.
#[derive(Debug, Default)]
pub struct ApplicationState {
    pub todos: Vec<Todo>,
    pub select_state: SelectState,
}

impl ApplicationState {
    /// The index of the selected task, where the selection names one.
    pub open spec fn current(self) -> Option<int> {
        match self.select_state.selected {
            Some(i) if i < self.todos@.len() => Some(i as int),
            _ => None,
        }
    }

    /// `post` is `self` after a task titled `title` is appended: the task
    /// stands last, not done, the others are as before, and the selection
    /// points at the list's new length.
    pub open spec fn appended(self, title: Seq<char>, post: ApplicationState) -> bool {
        &&& post.todos@.len() == self.todos@.len() + 1
        &&& post.todos@.drop_last() == self.todos@
        &&& post.todos@.last().title@ == title
        &&& !post.todos@.last().done
        &&& post.select_state == self.select_state.after_select(Some(post.todos@.len() as usize))
    }

    /// `post` is `self` after the selected task is renamed to `title`;
    /// without a selected task nothing changes.
    pub open spec fn renamed(self, title: Seq<char>, post: ApplicationState) -> bool {
        &&& post.select_state == self.select_state
        &&& match self.current() {
            Some(i) => {
                &&& post.todos@.len() == self.todos@.len()
                &&& post.todos@[i].title@ == title
                &&& post.todos@[i].done == self.todos@[i].done
                &&& forall|j: int|
                    0 <= j < self.todos@.len() && j != i ==> post.todos@[j] == self.todos@[j]
            },
            None => post.todos@ == self.todos@,
        }
    }

    /// `post` is `self` after the selected task is removed; without a
    /// selected task nothing changes.
    pub open spec fn removed(self, post: ApplicationState) -> bool {
        &&& post.select_state == self.select_state
        &&& match self.current() {
            Some(i) => post.todos@ == self.todos@.remove(i),
            None => post.todos@ == self.todos@,
        }
    }

    /// `post` is `self` after the selected task is toggled; without a
    /// selected task nothing changes.
    pub open spec fn toggled(self, post: ApplicationState) -> bool {
        &&& post.select_state == self.select_state
        &&& match self.current() {
            Some(i) => {
                &&& post.todos@.len() == self.todos@.len()
                &&& post.todos@[i].title == self.todos@[i].title
                &&& post.todos@[i].done == !self.todos@[i].done
                &&& forall|j: int|
                    0 <= j < self.todos@.len() && j != i ==> post.todos@[j] == self.todos@[j]
            },
            None => post.todos@ == self.todos@,
        }
    }

    /// An empty list with the first index selected.
    pub fn new() -> (state: ApplicationState)
        ensures
            state.todos@.len() == 0,
            state.select_state == (SelectState { offset: 0, selected: Some(0) }),
    {
        ApplicationState {
            todos: Vec::new(),
            select_state: SelectState { offset: 0, selected: Some(0) },
        }
    }

    /// Appends a task that is not done and moves the selection to the end.
    pub fn append_todo(&mut self, title: &str)
        ensures
            old(self).appended(title@, *final(self)),
    {
        self.todos.push(Todo::new(title));
        self.select_state.select(Some(self.todos.len()));
        assert(self.todos@.drop_last() =~= old(self).todos@);
    }

    /// Renames the selected task, if there is one.
    pub fn rename_todo(&mut self, new_title: &str)
        ensures
            old(self).renamed(new_title@, *final(self)),
    {
        if let Some(index) = self.select_state.selected() {
            if index < self.todos.len() {
                self.todos[index].rename(new_title);
            }
        }
    }

    /// Removes the selected task, if there is one.
    pub fn remove_todo(&mut self)
        ensures
            old(self).removed(*final(self)),
    {
        if let Some(index) = self.select_state.selected() {
            if index < self.todos.len() {
                self.todos.remove(index);
            }
        }
    }

    /// A copy of the selected task, if there is one.
    pub fn get_current_todo(&self) -> (todo: Option<Todo>)
        ensures
            match (todo, self.current()) {
                (Some(t), Some(i)) => t.title == self.todos@[i].title && t.done
                    == self.todos@[i].done,
                (None, None) => true,
                _ => false,
            },
    {
        match self.select_state.selected() {
            Some(index) => {
                if index < self.todos.len() {
                    let t: &Todo = &self.todos[index];
                    Some(Todo { title: t.title.clone(), done: t.done })
                } else {
                    None
                }
            },
            None => None,
        }
    }

    /// Marks the selected task as done or not done, if there is one.
    pub fn toggle_current(&mut self)
        ensures
            old(self).toggled(*final(self)),
    {
        if let Some(index) = self.select_state.selected() {
            if index < self.todos.len() {
                self.todos[index].toggle_done();
            }
        }
    }
}

} // verus!
