use vstd::prelude::*;

verus! {

/// The index after `i` in a list of `n` entries, wrapping to the first.
pub open spec fn next_index(i: nat, n: nat) -> nat {
    if i + 1 < n {
        i + 1
    } else {
        0
    }
}

/// The index before `i` in a list of `n` entries, wrapping to the last.
pub open spec fn prev_index(i: nat, n: nat) -> nat {
    if i == 0 {
        (n - 1) as nat
    } else {
        (i - 1) as nat
    }
}

/// The selection after a forward move in a list of `n` entries.
pub open spec fn next_selection(sel: Option<usize>, n: nat) -> Option<usize> {
    match sel {
        None => None,
        Some(i) => Some(next_index(i as nat, n) as usize),
    }
}

/// The selection after a backward move in a list of `n` entries.
pub open spec fn prev_selection(sel: Option<usize>, n: nat) -> Option<usize> {
    match sel {
        None => None,
        Some(i) => Some(prev_index(i as nat, n) as usize),
    }
}

/// Where `i` ends after `k` forward moves in a list of `n` entries.
pub open spec fn next_n(i: nat, k: nat, n: nat) -> nat
    decreases k,
{
    if k == 0 {
        i
    } else {
        next_index(next_n(i, (k - 1) as nat, n), n)
    }
}

/// Where `i` ends after a sequence of moves: `true` forward, `false` back.
pub open spec fn after_moves(i: nat, moves: Seq<bool>, n: nat) -> nat
    decreases moves.len(),
{
    if moves.len() == 0 {
        i
    } else {
        let j = after_moves(i, moves.drop_last(), n);
        if moves.last() {
            next_index(j, n)
        } else {
            prev_index(j, n)
        }
    }
}

/// The highlighted position of a list: `None` exactly when the list is empty.
#[derive(Clone, Copy, Debug, PartialEq, Eq, Structural)]
pub struct Cursor {
    pub selected: Option<usize>,
}

impl Cursor {
    /// The cursor is a valid position of a list of `n` entries.
    pub open spec fn valid(self, n: nat) -> bool {
        match self.selected {
            None => n == 0,
            Some(i) => i < n,
        }
    }

    /// A cursor on the first of `n` entries, or on nothing if there are none.
    pub fn first(n: usize) -> (r: Cursor)
        ensures
            r.selected == (if n == 0 { None } else { Some(0usize) }),
            r.valid(n as nat),
    {
        if n == 0 {
            Cursor { selected: None }
        } else {
            Cursor { selected: Some(0) }
        }
    }

    /// Moves one entry forward, from the last entry to the first.
    pub fn select_next(&mut self, n: usize)
        requires
            old(self).valid(n as nat),
        ensures
            final(self).valid(n as nat),
            final(self).selected == next_selection(old(self).selected, n as nat),
    {
        if let Some(i) = self.selected {
            if i + 1 < n {
                self.selected = Some(i + 1);
            } else {
                self.selected = Some(0);
            }
        }
    }

    /// Moves one entry back, from the first entry to the last.
    pub fn select_previous(&mut self, n: usize)
        requires
            old(self).valid(n as nat),
        ensures
            final(self).valid(n as nat),
            final(self).selected == prev_selection(old(self).selected, n as nat),
    {
        if let Some(i) = self.selected {
            if i == 0 {
                self.selected = Some(n - 1);
            } else {
                self.selected = Some(i - 1);
            }
        }
    }
}

/// Forward moves from a valid index count up from it and wrap past the end.
proof fn lemma_next_n_closed_form(i: nat, k: nat, n: nat)
    requires
        i < n,
        k <= n,
    ensures
        next_n(i, k, n) == (if i + k < n { i + k } else { (i + k - n) as nat }),
    decreases k,
{
    if k > 0 {
        lemma_next_n_closed_form(i, (k - 1) as nat, n);
    }
}

/// In a non-empty list of `n` entries, `n` forward moves bring the cursor
/// back to where it started, and every move on the way stays in the list.
pub proof fn lemma_next_wraps_exactly(i: nat, n: nat)
    requires
        i < n,
    ensures
        next_n(i, n, n) == i,
        forall|k: nat| k <= n ==> #[trigger] next_n(i, k, n) < n,
{
    lemma_next_n_closed_form(i, n, n);
    assert forall|k: nat| k <= n implies #[trigger] next_n(i, k, n) < n by {
        lemma_next_n_closed_form(i, k, n);
    }
}

/// On a non-empty list, any sequence of forward and backward moves from a
/// valid index ends on a valid index.
pub proof fn lemma_moves_stay_in_range(i: nat, moves: Seq<bool>, n: nat)
    requires
        i < n,
    ensures
        after_moves(i, moves, n) < n,
    decreases moves.len(),
{
    if moves.len() > 0 {
        lemma_moves_stay_in_range(i, moves.drop_last(), n);
    }
}

} // verus!
