//! An ordered collection paired with a selection cursor.
//!
//! `StatefulList` owns the items in display order together with an optional
//! selected index. Navigation wraps around both ends, and removal clamps the
//! cursor down onto the nearest valid index, so no operation ever panics or
//! leaves the cursor out of bounds, whatever the collection size.

use vstd::prelude::*;

verus! {

/// The mathematical model of a `StatefulList`: the item sequence and the
/// cursor as an unbounded integer index.
#[verifier::ext_equal]
pub struct ListModel<T> {
    pub items: Seq<T>,
    pub selected: Option<int>,
}

impl<T> ListModel<T> {
    /// Well-formedness: a present cursor points inside the sequence. (This
    /// also makes the cursor absent whenever the sequence is empty.)
    pub open spec fn wf(self) -> bool {
        match self.selected {
            Some(i) => 0 <= i < self.items.len(),
            None => true,
        }
    }

    /// The session invariant: well-formed, and the cursor is present exactly
    /// when there is something to point at.
    pub open spec fn inv(self) -> bool {
        &&& self.wf()
        &&& self.items.len() > 0 <==> self.selected is Some
    }

    /// Image of `next`: advance by one, wrapping to the front; from an unset
    /// cursor, land on the front. Empty lists are untouched.
    pub open spec fn next_spec(self) -> ListModel<T> {
        if self.items.len() == 0 {
            self
        } else {
            let i = match self.selected {
                Some(i) => if i >= self.items.len() - 1 { 0int } else { i + 1 },
                None => 0int,
            };
            ListModel { items: self.items, selected: Some(i) }
        }
    }

    /// Image of `previous`: step back by one, wrapping to the back; from an
    /// unset cursor, land on the front. Empty lists are untouched.
    pub open spec fn prev_spec(self) -> ListModel<T> {
        if self.items.len() == 0 {
            self
        } else {
            let i = match self.selected {
                Some(i) => if i == 0 { self.items.len() - 1 } else { i - 1 },
                None => 0int,
            };
            ListModel { items: self.items, selected: Some(i) }
        }
    }

    /// Image of `remove`: drop the selected item; afterwards the cursor is
    /// absent if nothing is left, moves to the new last index if the removed
    /// index was the last, and otherwise stays on the same numeric index.
    pub open spec fn remove_spec(self) -> ListModel<T> {
        match self.selected {
            Some(i) => {
                let rest = self.items.remove(i);
                let sel = if rest.len() == 0 {
                    None
                } else if i == self.items.len() - 1 {
                    Some(i - 1)
                } else {
                    Some(i)
                };
                ListModel { items: rest, selected: sel }
            },
            None => self,
        }
    }
}

/// One navigation move, used to state laws about arbitrary move sequences.
pub enum NavMove {
    Next,
    Previous,
}

/// Image of one navigation move on the model.
pub open spec fn nav_spec<T>(m: ListModel<T>, mv: NavMove) -> ListModel<T> {
    match mv {
        NavMove::Next => m.next_spec(),
        NavMove::Previous => m.prev_spec(),
    }
}

/// Image of a whole sequence of navigation moves, applied in order.
pub open spec fn nav_seq_spec<T>(m: ListModel<T>, moves: Seq<NavMove>) -> ListModel<T>
    decreases moves.len(),
{
    if moves.len() == 0 {
        m
    } else {
        nav_seq_spec(nav_spec(m, moves[0]), moves.subrange(1, moves.len() as int))
    }
}

/// Law: on a non-empty list with a set cursor, any sequence of `next` and
/// `previous` moves leaves the items alone and the cursor on a valid index.
pub proof fn lemma_navigation_in_bounds<T>(m: ListModel<T>, moves: Seq<NavMove>)
    requires
        m.wf(),
        m.items.len() > 0,
        m.selected is Some,
    ensures
        nav_seq_spec(m, moves).items == m.items,
        nav_seq_spec(m, moves).selected matches Some(i) && 0 <= i < m.items.len(),
    decreases moves.len(),
{
    if moves.len() > 0 {
        lemma_navigation_in_bounds(nav_spec(m, moves[0]), moves.subrange(1, moves.len() as int));
    }
}

/// `n` applications of `next_spec`.
pub open spec fn iter_next_spec<T>(m: ListModel<T>, n: nat) -> ListModel<T>
    decreases n,
{
    if n == 0 {
        m
    } else {
        iter_next_spec(m, (n - 1) as nat).next_spec()
    }
}

/// After `k <= len` next moves from index `i0`, the cursor sits at
/// `i0 + k`, less the length once it has wrapped.
proof fn lemma_iter_next_wraps<T>(m: ListModel<T>, i0: int, k: nat)
    requires
        m.wf(),
        m.selected == Some(i0),
        k <= m.items.len(),
    ensures
        iter_next_spec(m, k).items == m.items,
        iter_next_spec(m, k).selected == Some(
            if i0 + k < m.items.len() {
                i0 + k
            } else {
                i0 + k - m.items.len()
            },
        ),
    decreases k,
{
    if k > 0 {
        lemma_iter_next_wraps(m, i0, (k - 1) as nat);
    }
}

/// Law: composing `next` with itself `len` times returns to the original
/// selection (wrap-around closure).
pub proof fn lemma_next_wraps_around<T>(m: ListModel<T>)
    requires
        m.inv(),
    ensures
        iter_next_spec(m, m.items.len()) == m,
{
    if m.items.len() > 0 {
        lemma_iter_next_wraps(m, m.selected->0, m.items.len());
    }
    assert(iter_next_spec(m, m.items.len()) =~= m);
}

/// Law: `previous` undoes one `next`: for any state satisfying the session
/// invariant, stepping forward and then back restores the state.
pub proof fn lemma_previous_undoes_next<T>(m: ListModel<T>)
    requires
        m.inv(),
    ensures
        m.next_spec().prev_spec() == m,
{
    assert(m.next_spec().prev_spec() =~= m);
}

/// Law: removing the only item of a single-item list leaves an empty
/// collection with no selection.
pub proof fn lemma_remove_singleton<T>(m: ListModel<T>)
    requires
        m.wf(),
        m.items.len() == 1,
        m.selected is Some,
    ensures
        m.remove_spec().items.len() == 0,
        m.remove_spec().selected is None,
{
}

/// Law: removing the last-indexed item of a multi-item list moves the
/// cursor to the new last index.
pub proof fn lemma_remove_last<T>(m: ListModel<T>)
    requires
        m.wf(),
        m.items.len() >= 2,
        m.selected == Some(m.items.len() - 1),
    ensures
        m.remove_spec().items.len() == m.items.len() - 1,
        m.remove_spec().items == m.items.take(m.items.len() - 1),
        m.remove_spec().selected == Some(m.remove_spec().items.len() - 1),
{
    assert(m.items.remove(m.items.len() - 1) =~= m.items.take(m.items.len() - 1));
}

/// Law: removing a non-last item keeps the numeric index fixed while the
/// items shift: the old successor becomes the selected item.
pub proof fn lemma_remove_non_last<T>(m: ListModel<T>)
    requires
        m.wf(),
        m.selected matches Some(i) && i < m.items.len() - 1,
    ensures
        m.remove_spec().items.len() == m.items.len() - 1,
        m.remove_spec().selected == m.selected,
        m.remove_spec().items[m.selected->0] == m.items[m.selected->0 + 1],
{
}

/// An ordered collection of `T` plus the "currently selected index" cursor.
pub struct StatefulList<T> {
    pub items: Vec<T>,
    pub selected: Option<usize>,
}

impl<T> View for StatefulList<T> {
    type V = ListModel<T>;

    open spec fn view(&self) -> ListModel<T> {
        ListModel {
            items: self.items@,
            selected: match self.selected {
                Some(i) => Some(i as int),
                None => None,
            },
        }
    }
}

impl<T> StatefulList<T> {
    /// Wrap a loaded collection; the cursor starts unset and the caller
    /// selects an index explicitly.
    pub fn with_items(items: Vec<T>) -> (l: StatefulList<T>)
        ensures
            l@.items == items@,
            l@.selected is None,
    {
        StatefulList { items, selected: None }
    }

    /// Set the cursor outright; the index must be in bounds when present.
    pub fn select(&mut self, index: Option<usize>)
        requires
            match index {
                Some(i) => i < old(self)@.items.len(),
                None => true,
            },
        ensures
            final(self)@.items == old(self)@.items,
            final(self).selected == index,
            final(self)@.wf(),
    {
        self.selected = index;
    }

    /// Advance the cursor, wrapping past the last index to the front.
    /// A defined no-op on an empty list; never panics.
    pub fn next(&mut self)
        requires
            old(self)@.wf(),
        ensures
            final(self)@ == old(self)@.next_spec(),
            final(self)@.inv(),
    {
        if self.items.len() == 0 {
            return ;
        }
        let i: usize = match self.selected {
            Some(i) => if i >= self.items.len() - 1 {
                0
            } else {
                i + 1
            },
            None => 0,
        };
        self.selected = Some(i);
    }

    /// Step the cursor back, wrapping past the front to the last index.
    /// A defined no-op on an empty list; never panics.
    pub fn previous(&mut self)
        requires
            old(self)@.wf(),
        ensures
            final(self)@ == old(self)@.prev_spec(),
            final(self)@.inv(),
    {
        if self.items.len() == 0 {
            return ;
        }
        let i: usize = match self.selected {
            Some(i) => if i == 0 {
                self.items.len() - 1
            } else {
                i - 1
            },
            None => 0,
        };
        self.selected = Some(i);
    }

    /// Remove the selected item, clamping the cursor down onto the nearest
    /// valid index. A defined no-op when nothing is selected; never panics.
    pub fn remove(&mut self)
        requires
            old(self)@.wf(),
        ensures
            final(self)@ == old(self)@.remove_spec(),
            old(self)@.inv() ==> final(self)@.inv(),
            final(self)@.wf(),
    {
        match self.selected {
            Some(i) => {
                self.items.remove(i);
                let len = self.items.len();
                if len == 0 {
                    self.selected = None;
                } else if i >= len {
                    self.selected = Some(len - 1);
                } else {
                    self.selected = Some(i);
                }
            },
            None => {},
        }
    }

    /// The selected item, if any.
    pub fn current(&self) -> (r: Option<&T>)
        requires
            self@.wf(),
        ensures
            match self@.selected {
                Some(i) => r matches Some(t) && *t == self@.items[i],
                None => r is None,
            },
    {
        match self.selected {
            Some(i) => Some(&self.items[i]),
            None => None,
        }
    }
}

} // verus!
