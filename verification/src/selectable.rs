//! An ordered collection with an optional cursor supporting wrap-around
//! `next` / `previous` navigation and an explicit "unselected" state.

use vstd::prelude::*;

verus! {

/// Where the cursor lands after one forward step on a list of length `len`.
///
/// On an empty list the cursor is left untouched; from the unselected state the
/// first step lands on index 0; otherwise the cursor advances by one, wrapping
/// to 0 past the last index.
pub open spec fn next_cursor(cursor: Option<int>, len: int) -> Option<int> {
    if len <= 0 {
        cursor
    } else {
        match cursor {
            None => Some(0int),
            Some(i) => if i >= len - 1 { Some(0int) } else { Some(i + 1) },
        }
    }
}

/// Where the cursor lands after one backward step on a list of length `len`.
///
/// On an empty list the cursor is left untouched; from the unselected state the
/// first step lands on index 0; otherwise the cursor retreats by one, wrapping
/// to the last index at 0.
pub open spec fn prev_cursor(cursor: Option<int>, len: int) -> Option<int> {
    if len <= 0 {
        cursor
    } else {
        match cursor {
            None => Some(0int),
            Some(i) => if i == 0 { Some(len - 1) } else { Some(i - 1) },
        }
    }
}

/// The cursor after `k` forward steps on a list of length `len`.
pub open spec fn iterate_next(cursor: Option<int>, len: int, k: nat) -> Option<int>
    decreases k,
{
    if k == 0 {
        cursor
    } else {
        next_cursor(iterate_next(cursor, len, (k - 1) as nat), len)
    }
}

/// Law: on a non-empty list of length `len`, the first forward step from the
/// unselected state lands on index 0, and `k` further steps from index 0 land
/// on index `k` while `k < len` and back on index 0 at `k == len` — so the
/// steps visit every index in order and return to index 0 after exactly `len`
/// of them, and not before.
pub proof fn lemma_next_cycles(len: int, k: nat)
    requires
        0 < len,
        k <= len,
    ensures
        iterate_next(None, len, 1) == Some(0int),
        k < len ==> iterate_next(Some(0int), len, k) == Some(k as int),
        k == len ==> iterate_next(Some(0int), len, k) == Some(0int),
    decreases k,
{
    assert(iterate_next(None, len, 0) == Option::<int>::None);
    assert(iterate_next(None, len, 1) == next_cursor(Option::<int>::None, len));
    if k > 0 {
        lemma_next_cycles(len, (k - 1) as nat);
        assert(iterate_next(Some(0int), len, k)
            == next_cursor(iterate_next(Some(0int), len, (k - 1) as nat), len));
    }
}

/// Law: one backward step from index 0 on a non-empty list of length `len`
/// wraps to the last index.
pub proof fn lemma_previous_wraps(len: int)
    requires
        0 < len,
    ensures
        prev_cursor(Some(0int), len) == Some(len - 1),
{
}

/// Law: on an empty list, a step in either direction leaves the cursor
/// untouched — in particular an unselected cursor stays unselected, and the
/// steps never index into the (empty) items.
pub proof fn lemma_empty_navigation(cursor: Option<int>)
    ensures
        next_cursor(cursor, 0) == cursor,
        prev_cursor(cursor, 0) == cursor,
{
}

/// Law: a forward step from the unselected state lands on index 0 exactly when
/// the list is non-empty. Since `unselect` and `with_items` both leave the
/// cursor unselected over the same items, a `next` after `unselect` yields the
/// same cursor as a `next` on a freshly built list: `Some(0)` when non-empty.
pub proof fn lemma_unselect_then_next(len: int)
    ensures
        next_cursor(None, len) == (if len > 0 {
            Some(0int)
        } else {
            None::<int>
        }),
{
}

/// An ordered sequence of items together with an optional cursor into it.
///
/// Invariant (`wf`): whenever the cursor is `Some(i)`, `i` is a valid index.
/// Replacing the items wholesale always clears the cursor, so a stale index
/// into a swapped-out sequence can never survive a `replace`.
pub struct SelectableList<T> {
    pub items: Vec<T>,
    pub cursor: Option<usize>,
}

impl<T> SelectableList<T> {
    /// The cursor invariant: a selection always points inside the items.
    pub open spec fn wf(self) -> bool {
        self.cursor matches Some(i) ==> (i as int) < self.items@.len()
    }

    /// The cursor as a mathematical value.
    pub open spec fn cursor_spec(self) -> Option<int> {
        match self.cursor {
            None => None,
            Some(i) => Some(i as int),
        }
    }

    /// Builds a list over `items` with nothing selected.
    pub fn with_items(items: Vec<T>) -> (l: SelectableList<T>)
        ensures
            l.items@ == items@,
            l.cursor is None,
            l.wf(),
    {
        SelectableList { items, cursor: None }
    }

    /// Moves the selection one step forward, wrapping past the end;
    /// a no-op on an empty list.
    pub fn next(&mut self)
        requires
            old(self).wf(),
        ensures
            final(self).wf(),
            final(self).items@ == old(self).items@,
            final(self).cursor_spec() == next_cursor(
                old(self).cursor_spec(),
                old(self).items@.len() as int,
            ),
    {
        if self.items.len() == 0 {
            return;
        }
        let i: usize = match self.cursor {
            Some(i) => if i >= self.items.len() - 1 { 0 } else { i + 1 },
            None => 0,
        };
        self.cursor = Some(i);
    }

    /// Moves the selection one step backward, wrapping below index 0;
    /// a no-op on an empty list.
    pub fn previous(&mut self)
        requires
            old(self).wf(),
        ensures
            final(self).wf(),
            final(self).items@ == old(self).items@,
            final(self).cursor_spec() == prev_cursor(
                old(self).cursor_spec(),
                old(self).items@.len() as int,
            ),
    {
        if self.items.len() == 0 {
            return;
        }
        let i: usize = match self.cursor {
            Some(i) => if i == 0 { self.items.len() - 1 } else { i - 1 },
            None => 0,
        };
        self.cursor = Some(i);
    }

    /// Clears the selection; the items are untouched.
    pub fn unselect(&mut self)
        ensures
            final(self).wf(),
            final(self).items@ == old(self).items@,
            final(self).cursor is None,
    {
        self.cursor = None;
    }

    /// Swaps in a new backing sequence and clears the cursor, so the result
    /// never holds an index into the old items. A caller that wants an initial
    /// selection follows up with `select_first`.
    pub fn replace(&mut self, items: Vec<T>)
        ensures
            final(self).wf(),
            final(self).items@ == items@,
            final(self).cursor is None,
    {
        self.items = items;
        self.cursor = None;
    }

    /// Selects index 0 when the list is non-empty; clears the selection
    /// otherwise.
    pub fn select_first(&mut self)
        ensures
            final(self).wf(),
            final(self).items@ == old(self).items@,
            final(self).cursor_spec() == (if old(self).items@.len() > 0 {
                Some(0int)
            } else {
                None::<int>
            }),
    {
        if self.items.len() > 0 {
            self.cursor = Some(0);
        } else {
            self.cursor = None;
        }
    }
}

} // verus!
