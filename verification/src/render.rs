//! The full-frame description handed to the display sink.
//!
//! Each iteration of the render loop redraws the whole state: one line per
//! entry, a checkbox marker followed by the title, with the selected line
//! highlighted. This module computes that description as plain data; the
//! display sink that actually draws it lives outside the crate.

use vstd::prelude::*;
use vstd::string::StringExecFns;

use crate::todo::Todo;
use crate::utils::StatefulList;

verus! {

/// One displayed line: the entry's completion state and title, and whether
/// the line carries the selection highlight.
pub struct FrameLine {
    pub checked: bool,
    pub title: String,
    pub highlighted: bool,
}

/// The checkbox marker shown before each title.
pub fn checkbox_marker(done: bool) -> (r: String)
    ensures
        done ==> r@ == "[x] "@,
        !done ==> r@ == "[ ] "@,
{
    if done {
        String::from_str("[x] ")
    } else {
        String::from_str("[ ] ")
    }
}

/// Describe the whole current state, line by line and in display order:
/// line `i` shows entry `i`'s flag and title, and is highlighted exactly
/// when the cursor sits on index `i`.
pub fn render_frame(list: &StatefulList<Todo>) -> (frame: Vec<FrameLine>)
    ensures
        frame@.len() == list@.items.len(),
        forall|i: int|
            0 <= i < frame@.len() ==> {
                &&& (#[trigger] frame@[i]).checked == list@.items[i].done
                &&& frame@[i].title == list@.items[i].title
                &&& (frame@[i].highlighted <==> list@.selected == Some(i))
            },
{
    let mut frame: Vec<FrameLine> = Vec::new();
    let mut j: usize = 0;
    while j < list.items.len()
        invariant
            j <= list@.items.len(),
            frame@.len() == j,
            forall|i: int|
                0 <= i < j ==> {
                    &&& (#[trigger] frame@[i]).checked == list@.items[i].done
                    &&& frame@[i].title == list@.items[i].title
                    &&& (frame@[i].highlighted <==> list@.selected == Some(i))
                },
        decreases list@.items.len() - j,
    {
        let highlighted = match list.selected {
            Some(s) => s == j,
            None => false,
        };
        let entry = &list.items[j];
        frame.push(FrameLine { checked: entry.done, title: entry.title.clone(), highlighted });
        j += 1;
    }
    frame
}

} // verus!
