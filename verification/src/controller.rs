//! The key-dispatch state machine: one incoming key event maps to exactly
//! one transition on the selectable to-do list, applied synchronously.
//!
//! The dispatch itself is a pure function from (state, key) to state —
//! `step` — plus an `Action` telling the loop driver whether to quit.
//! Persistence and drawing stay with the driver; nothing here does I/O.

use vstd::prelude::*;

use crate::todo::{Todo, TodoData, toggled};
use crate::utils::{ListModel, StatefulList};

verus! {

/// A discrete key event, as the input source hands it over.
#[derive(Clone, Copy)]
pub enum Key {
    Up,
    Down,
    Char(char),
    Other,
}

/// What the loop driver must do after a key was dispatched.
pub enum Action {
    /// Keep looping: redraw and poll again.
    Continue,
    /// Terminal transition: persist the current items, then stop.
    Quit,
}

/// The quit key ends the session.
pub open spec fn is_quit(key: Key) -> bool {
    key == Key::Char('q')
}

/// Image of the toggle key: flip the selected entry's flag, if any entry is
/// selected; otherwise leave the state alone.
pub open spec fn toggle_spec(m: ListModel<Todo>) -> ListModel<Todo> {
    match m.selected {
        Some(i) => ListModel { items: m.items.update(i, toggled(m.items[i])), selected: m.selected },
        None => m,
    }
}

/// The flat dispatch table as a pure function: what one key does to the
/// list state. The quit key and unrecognized keys change nothing.
pub open spec fn step(m: ListModel<Todo>, key: Key) -> ListModel<Todo> {
    match key {
        Key::Up => m.prev_spec(),
        Key::Down => m.next_spec(),
        Key::Char(c) => if c == 't' {
            toggle_spec(m)
        } else if c == 'd' {
            m.remove_spec()
        } else {
            m
        },
        Key::Other => m,
    }
}

/// Image of dispatching a batch of keys in order, stopping at the first
/// quit key: the final state, and whether quit fired.
pub open spec fn run_spec(m: ListModel<Todo>, keys: Seq<Key>) -> (ListModel<Todo>, bool)
    decreases keys.len(),
{
    if keys.len() == 0 {
        (m, false)
    } else if is_quit(keys[0]) {
        (m, true)
    } else {
        run_spec(step(m, keys[0]), keys.subrange(1, keys.len() as int))
    }
}

/// The interactive session state: the selectable list of entries.
pub struct TodoList {
    pub items: StatefulList<Todo>,
}

impl TodoList {
    /// Wrap a loaded collection; the cursor starts unset.
    pub fn new(data: TodoData) -> (l: TodoList)
        ensures
            l.items@.items == data.todos@,
            l.items@.selected is None,
    {
        TodoList { items: StatefulList::with_items(data.todos) }
    }

    /// Put the cursor on the first entry when there is one, establishing
    /// the session invariant; on an empty collection it stays unset.
    pub fn select_first(&mut self)
        ensures
            final(self).items@.items == old(self).items@.items,
            final(self).items@.inv(),
            old(self).items@.items.len() > 0 ==> final(self).items@.selected == Some(0int),
    {
        if self.items.items.len() > 0 {
            self.items.select(Some(0));
        } else {
            self.items.select(None);
        }
    }

    /// Flip the selected entry's completion flag; a defined no-op when
    /// nothing is selected.
    pub fn toggle_current(&mut self)
        requires
            old(self).items@.wf(),
        ensures
            final(self).items@ == toggle_spec(old(self).items@),
            final(self).items@.wf(),
            old(self).items@.inv() ==> final(self).items@.inv(),
    {
        match self.items.selected {
            Some(i) => {
                let entry = &mut self.items.items[i];
                entry.toggle();
            },
            None => {},
        }
    }

    /// Dispatch one key event through the flat table: exactly the `step`
    /// transition, and `Quit` exactly on the quit key.
    pub fn handle_key(&mut self, key: Key) -> (a: Action)
        requires
            old(self).items@.wf(),
        ensures
            final(self).items@ == step(old(self).items@, key),
            a is Quit <==> is_quit(key),
            final(self).items@.wf(),
            old(self).items@.inv() ==> final(self).items@.inv(),
    {
        match key {
            Key::Up => {
                self.items.previous();
                Action::Continue
            },
            Key::Down => {
                self.items.next();
                Action::Continue
            },
            Key::Char(c) => {
                if c == 'q' {
                    Action::Quit
                } else if c == 't' {
                    self.toggle_current();
                    Action::Continue
                } else if c == 'd' {
                    self.items.remove();
                    Action::Continue
                } else {
                    Action::Continue
                }
            },
            Key::Other => Action::Continue,
        }
    }

    /// Dispatch a polled batch of key events in order, stopping at the
    /// first quit key; says whether quit fired.
    pub fn handle_keys(&mut self, keys: &Vec<Key>) -> (quit: bool)
        requires
            old(self).items@.wf(),
        ensures
            final(self).items@ == run_spec(old(self).items@, keys@).0,
            quit == run_spec(old(self).items@, keys@).1,
            final(self).items@.wf(),
            old(self).items@.inv() ==> final(self).items@.inv(),
    {
        let ghost m0 = self.items@;
        proof {
            assert(keys@.subrange(0, keys@.len() as int) =~= keys@);
        }
        let mut idx: usize = 0;
        while idx < keys.len()
            invariant
                idx <= keys@.len(),
                m0 == old(self).items@,
                self.items@.wf(),
                m0.inv() ==> self.items@.inv(),
                run_spec(m0, keys@) == run_spec(
                    self.items@,
                    keys@.subrange(idx as int, keys@.len() as int),
                ),
            decreases keys@.len() - idx,
        {
            let key = keys[idx];
            let ghost pre = self.items@;
            let ghost rest = keys@.subrange(idx as int, keys@.len() as int);
            proof {
                assert(rest[0] == keys@[idx as int]);
                assert(rest.subrange(1, rest.len() as int) =~= keys@.subrange(
                    idx as int + 1,
                    keys@.len() as int,
                ));
            }
            let a = self.handle_key(key);
            match a {
                Action::Quit => {
                    proof {
                        assert(run_spec(pre, rest) == (pre, true));
                    }
                    return true;
                },
                Action::Continue => {},
            }
            idx += 1;
        }
        proof {
            assert(keys@.subrange(keys@.len() as int, keys@.len() as int) =~= Seq::<Key>::empty());
        }
        false
    }
}

} // verus!
