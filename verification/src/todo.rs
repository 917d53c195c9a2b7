//! One item of the list.

use vstd::prelude::*;
use vstd::string::StringExecFns;

verus! {

/// A task with a title, done or not.
#[derive(Debug, Default, Clone)]
pub struct Todo {
    pub title: String,
    pub done: bool,
}

impl Todo {
    /// The task as a line of the list: a box, ticked if the task is done,
    /// and the title.
    pub open spec fn line(self) -> Seq<char> {
        if self.done {
            " [\u{2713}] "@ + self.title@
        } else {
            " [ ] "@ + self.title@
        }
    }

    /// The task as a line of the list.
    pub fn label(&self) -> (text: String)
        ensures
            text@ == self.line(),
    {
        let mut text: String = String::from_str(
            if self.done {
                " [\u{2713}] "
            } else {
                " [ ] "
            },
        );
        text.append(self.title.as_str());
        text
    }

    /// A task that is not done yet.
    pub fn new(title: &str) -> (todo: Todo)
        ensures
            todo.title@ == title@,
            !todo.done,
    {
        Todo { title: String::from_str(title), done: false }
    }

    /// Marks a done task as not done, and the other way round.
    pub fn toggle_done(&mut self)
        ensures
            final(self).done == !old(self).done,
            final(self).title == old(self).title,
    {
        self.done = !self.done;
    }

    /// Gives the task another title.
    pub fn rename(&mut self, new_name: &str)
        ensures
            final(self).title@ == new_name@,
            final(self).done == old(self).done,
    {
        self.title = String::from_str(new_name);
    }
}

} // verus!
