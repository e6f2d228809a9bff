use vstd::prelude::*;

verus! {

/// The index that follows `sel` in a list of `len` items: the first item
/// when nothing is selected, clamped at the last item, and nothing at all
/// when the list is empty.
pub open spec fn next_index(sel: Option<usize>, len: nat) -> Option<usize> {
    if len == 0 {
        None
    } else {
        match sel {
            None => Some(0usize),
            Some(i) => if i + 1 < len {
                Some((i + 1) as usize)
            } else {
                Some((len - 1) as usize)
            },
        }
    }
}

/// The index that precedes `sel` in a list of `len` items: the last item
/// when nothing is selected, clamped at the first item, and nothing at all
/// when the list is empty.
pub open spec fn previous_index(sel: Option<usize>, len: nat) -> Option<usize> {
    if len == 0 {
        None
    } else {
        match sel {
            None => Some((len - 1) as usize),
            Some(i) => if i == 0 {
                Some(0usize)
            } else if i - 1 < len {
                Some((i - 1) as usize)
            } else {
                Some((len - 1) as usize)
            },
        }
    }
}

/// The selection after `n` moves forward from `sel`.
pub open spec fn nth_next(sel: Option<usize>, len: nat, n: nat) -> Option<usize>
    decreases n,
{
    if n == 0 {
        sel
    } else {
        next_index(nth_next(sel, len, (n - 1) as nat), len)
    }
}

/// The selection after a series of moves, `true` for forward and `false`
/// for backward, taken in order.
pub open spec fn after_moves(sel: Option<usize>, len: nat, moves: Seq<bool>) -> Option<usize>
    decreases moves.len(),
{
    if moves.len() == 0 {
        sel
    } else {
        let before = after_moves(sel, len, moves.drop_last());
        if moves.last() {
            next_index(before, len)
        } else {
            previous_index(before, len)
        }
    }
}

/// The highlighted position in a list whose items are held elsewhere.
#[derive(Clone, Copy, Debug, PartialEq, Eq)]
pub struct ListState {
    pub selected: Option<usize>,
}

impl ListState {
    /// A selection that lies inside a list of `len` items.
    pub open spec fn wf(&self, len: nat) -> bool {
        match self.selected {
            None => true,
            Some(i) => i < len,
        }
    }

    /// A state with nothing selected.
    pub fn new() -> (r: ListState)
        ensures
            r.selected == None::<usize>,
    {
        ListState { selected: None }
    }

    /// The selected index, if any.
    pub fn selected(&self) -> (r: Option<usize>)
        ensures
            r == self.selected,
    {
        self.selected
    }

    /// Moves the selection one item forward in a list of `len` items.
    pub fn select_next(&mut self, len: usize)
        ensures
            final(self).selected == next_index(old(self).selected, len as nat),
            final(self).wf(len as nat),
    {
        if len == 0 {
            self.selected = None;
        } else {
            let next: usize = match self.selected {
                None => 0,
                Some(i) => if i < len - 1 {
                    i + 1
                } else {
                    len - 1
                },
            };
            self.selected = Some(next);
        }
    }

    /// Moves the selection one item backward in a list of `len` items.
    pub fn select_previous(&mut self, len: usize)
        ensures
            final(self).selected == previous_index(old(self).selected, len as nat),
            final(self).wf(len as nat),
    {
        if len == 0 {
            self.selected = None;
        } else {
            let previous: usize = match self.selected {
                None => len - 1,
                Some(i) => if i == 0 {
                    0
                } else if i - 1 < len {
                    i - 1
                } else {
                    len - 1
                },
            };
            self.selected = Some(previous);
        }
    }
}

/// A list of items together with its highlighted position.
#[derive(Debug)]
pub struct UnfilteredListState<T> {
    pub items: Vec<T>,
    pub state: ListState,
}

impl<T> UnfilteredListState<T> {
    /// A list of `items` with nothing selected.
    pub fn new(items: Vec<T>) -> (r: UnfilteredListState<T>)
        ensures
            r.items == items,
            r.state.selected == None::<usize>,
    {
        UnfilteredListState { items, state: ListState::new() }
    }

    /// Moves the selection one item forward.
    pub fn select_next(&mut self)
        ensures
            final(self).items == old(self).items,
            final(self).state.selected == next_index(
                old(self).state.selected,
                old(self).items.len() as nat,
            ),
    {
        let len = self.items.len();
        self.state.select_next(len);
    }

    /// Moves the selection one item backward.
    pub fn select_previous(&mut self)
        ensures
            final(self).items == old(self).items,
            final(self).state.selected == previous_index(
                old(self).state.selected,
                old(self).items.len() as nat,
            ),
    {
        let len = self.items.len();
        self.state.select_previous(len);
    }

    /// The selected index, if any.
    pub fn selected(&self) -> (r: Option<usize>)
        ensures
            r == self.state.selected,
    {
        self.state.selected()
    }
}

/// Starting from no selection in a non-empty list, the `k`-th forward move
/// lands on index `k - 1`, so one pass of `len` moves visits every index
/// exactly once and in order.
pub proof fn lemma_next_visits_each_index_once(len: nat)
    requires
        0 < len,
        len <= usize::MAX,
    ensures
        forall|k: nat| 0 <= k < len ==> #[trigger] nth_next(None, len, k + 1) == Some(k as usize),
        forall|j: nat, k: nat|
            0 <= j < k < len ==> #[trigger] nth_next(None, len, j + 1) != #[trigger] nth_next(
                None,
                len,
                k + 1,
            ),
{
    assert forall|k: nat| 0 <= k < len implies #[trigger] nth_next(None, len, k + 1) == Some(
        k as usize,
    ) by {
        lemma_nth_next_from_none(len, k);
    }
    assert forall|j: nat, k: nat| 0 <= j < k < len implies #[trigger] nth_next(None, len, j + 1)
        != #[trigger] nth_next(None, len, k + 1) by {
        lemma_nth_next_from_none(len, j);
        lemma_nth_next_from_none(len, k);
    }
}

proof fn lemma_nth_next_from_none(len: nat, k: nat)
    requires
        k < len,
        len <= usize::MAX,
    ensures
        nth_next(None, len, k + 1) == Some(k as usize),
    decreases k,
{
    assert(nth_next(None, len, k + 1) == next_index(nth_next(None, len, k), len));
    if k > 0 {
        lemma_nth_next_from_none(len, (k - 1) as nat);
    } else {
        assert(nth_next(None, len, 0) == None::<usize>);
    }
}

/// In an empty list no series of moves, forward or backward, ever selects
/// anything.
pub proof fn lemma_empty_list_never_selects(sel: Option<usize>, moves: Seq<bool>)
    requires
        moves.len() > 0,
    ensures
        after_moves(sel, 0, moves) == None::<usize>,
{
}

} // verus!
