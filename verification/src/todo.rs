//! A single to-do entry and the persisted collection of entries.

use vstd::prelude::*;

verus! {

/// One to-do entry: a title and a completion flag.
pub struct Todo {
    pub title: String,
    pub done: bool,
}

/// The spec-level image of `Todo::toggle`: same title, flipped flag.
pub open spec fn toggled(t: Todo) -> Todo {
    Todo { title: t.title, done: !t.done }
}

impl Todo {
    /// A fresh entry starts not done.
    pub fn new(title: String) -> (t: Todo)
        ensures
            t.title == title,
            !t.done,
    {
        Todo { title, done: false }
    }

    /// Flip the completion flag; the title is untouched.
    pub fn toggle(&mut self)
        ensures
            *final(self) == toggled(*old(self)),
    {
        self.done = !self.done;
    }
}

/// Law: toggling an entry twice restores it exactly.
pub proof fn lemma_toggle_involutive(t: Todo)
    ensures
        toggled(toggled(t)) == t,
{
}

/// The whole persisted collection, in display order.
pub struct TodoData {
    pub todos: Vec<Todo>,
}

} // verus!
