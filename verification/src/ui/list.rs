//! Moving the selection of a list, and choosing the entries that a filter
//! keeps.
use vstd::prelude::*;

verus! {

/// The positions below `n` that satisfy `p`, in increasing order.
pub open spec fn indices_where(n: nat, p: spec_fn(int) -> bool) -> Seq<usize>
    decreases n,
{
    if n == 0 {
        Seq::empty()
    } else {
        let rest = indices_where((n - 1) as nat, p);
        if p(n - 1) {
            rest.push((n - 1) as usize)
        } else {
            rest
        }
    }
}

/// The positions that `indices_where` gives are below `n`, increasing, and
/// exactly those that satisfy `p`.
pub proof fn lemma_indices_where(n: nat, p: spec_fn(int) -> bool)
    requires
        n <= usize::MAX + 1,
    ensures
        forall|k: int|
            0 <= k < indices_where(n, p).len() ==> #[trigger] indices_where(n, p)[k] < n && p(
                indices_where(n, p)[k] as int,
            ),
        forall|k: int, l: int|
            0 <= k < l < indices_where(n, p).len() ==> #[trigger] indices_where(n, p)[k]
                < #[trigger] indices_where(n, p)[l],
        forall|j: int| 0 <= j < n && #[trigger] p(j) ==> indices_where(n, p).contains(j as usize),
    decreases n,
{
    if n > 0 {
        lemma_indices_where((n - 1) as nat, p);
        let rest = indices_where((n - 1) as nat, p);
        assert forall|j: int| 0 <= j < n && #[trigger] p(j) implies indices_where(n, p).contains(
            j as usize,
        ) by {
            if j < n - 1 {
                let k = choose|k: int| 0 <= k < rest.len() && rest[k] == j as usize;
                assert(indices_where(n, p)[k] == j as usize);
            } else {
                assert(indices_where(n, p).last() == j as usize);
            }
        }
    }
}

/// The selection stays within a list of `len` entries.
pub open spec fn selection_within(sel: Option<usize>, len: nat) -> bool {
    sel matches Some(i) ==> i < len
}

/// The selection after moving down: one further when there is a next entry.
pub open spec fn moved_down(sel: Option<usize>, len: nat) -> Option<usize> {
    match sel {
        Some(i) => if i + 1 < len {
            Some((i + 1) as usize)
        } else {
            sel
        },
        None => None,
    }
}

/// The selection after moving up: one back unless at the first entry.
pub open spec fn moved_up(sel: Option<usize>) -> Option<usize> {
    match sel {
        Some(i) => if i > 0 {
            Some((i - 1) as usize)
        } else {
            sel
        },
        None => None,
    }
}

/// The selection after moving to the first entry (if there is one).
pub open spec fn moved_first(sel: Option<usize>, len: nat) -> Option<usize> {
    if len > 0 {
        Some(0)
    } else {
        sel
    }
}

/// The selection after moving to the last entry (if there is one).
pub open spec fn moved_last(sel: Option<usize>, len: nat) -> Option<usize> {
    if len > 0 {
        Some((len - 1) as usize)
    } else {
        sel
    }
}

/// The selection after moving a page of `page` entries down, stopping at the
/// last entry.
pub open spec fn paged_down(sel: Option<usize>, len: nat, page: nat) -> Option<usize> {
    match sel {
        Some(i) => {
            let last = if len > 0 {
                len - 1
            } else {
                0
            };
            Some(
                (if i + page <= last {
                    i + page
                } else {
                    last
                }) as usize,
            )
        },
        None => None,
    }
}

/// The selection after moving a page of `page` entries up, stopping at the
/// first entry.
pub open spec fn paged_up(sel: Option<usize>, page: nat) -> Option<usize> {
    match sel {
        Some(i) => Some(
            (if i >= page {
                i - page
            } else {
                0
            }) as usize,
        ),
        None => None,
    }
}

/// The selection of a list that was just filled: its first entry, if any.
pub open spec fn first_selection(len: nat) -> Option<usize> {
    if len > 0 {
        Some(0)
    } else {
        None
    }
}

/// A move of the selection.
#[derive(Debug, Clone, Copy, PartialEq, Eq, Structural)]
pub enum Nav {
    Down,
    Up,
    First,
    Last,
    PageDown,
    PageUp,
}

/// The selection after the move `nav`, with pages of `page` entries.
pub open spec fn navigated(sel: Option<usize>, len: nat, nav: Nav, page: nat) -> Option<usize> {
    match nav {
        Nav::Down => moved_down(sel, len),
        Nav::Up => moved_up(sel),
        Nav::First => moved_first(sel, len),
        Nav::Last => moved_last(sel, len),
        Nav::PageDown => paged_down(sel, len, page),
        Nav::PageUp => paged_up(sel, page),
    }
}

/// The move `nav` from `sel` counts without overflow.
pub open spec fn nav_fits(sel: Option<usize>, nav: Nav, page: nat) -> bool {
    sel matches Some(i) ==> match nav {
        Nav::Down => i < usize::MAX,
        Nav::PageDown => i + page <= usize::MAX,
        _ => true,
    }
}

/// Moves a selection down.
pub fn move_down(sel: Option<usize>, len: usize) -> (r: Option<usize>)
    requires
        sel matches Some(i) ==> i < usize::MAX,
    ensures
        r == moved_down(sel, len as nat),
{
    match sel {
        Some(i) => if i + 1 < len {
            Some(i + 1)
        } else {
            sel
        },
        None => None,
    }
}

/// Moves a selection up.
pub fn move_up(sel: Option<usize>) -> (r: Option<usize>)
    ensures
        r == moved_up(sel),
{
    match sel {
        Some(i) => if i > 0 {
            Some(i - 1)
        } else {
            sel
        },
        None => None,
    }
}

/// Moves a selection to the first entry.
pub fn move_to_first(sel: Option<usize>, len: usize) -> (r: Option<usize>)
    ensures
        r == moved_first(sel, len as nat),
{
    if len > 0 {
        Some(0)
    } else {
        sel
    }
}

/// Moves a selection to the last entry.
pub fn move_to_last(sel: Option<usize>, len: usize) -> (r: Option<usize>)
    ensures
        r == moved_last(sel, len as nat),
{
    if len > 0 {
        Some(len - 1)
    } else {
        sel
    }
}

/// Moves a selection a page down.
pub fn page_down(sel: Option<usize>, len: usize, page: usize) -> (r: Option<usize>)
    requires
        sel matches Some(i) ==> i + page <= usize::MAX,
    ensures
        r == paged_down(sel, len as nat, page as nat),
{
    match sel {
        Some(i) => {
            let last = len.saturating_sub(1);
            let next = i + page;
            Some(
                if next <= last {
                    next
                } else {
                    last
                },
            )
        },
        None => None,
    }
}

/// Moves a selection a page up.
pub fn page_up(sel: Option<usize>, page: usize) -> (r: Option<usize>)
    ensures
        r == paged_up(sel, page as nat),
{
    match sel {
        Some(i) => Some(i.saturating_sub(page)),
        None => None,
    }
}

/// Every move keeps a selection that was within the list within it.
pub proof fn lemma_moves_stay_within(sel: Option<usize>, len: nat, page: nat)
    requires
        selection_within(sel, len),
    ensures
        selection_within(moved_down(sel, len), len),
        selection_within(moved_up(sel), len),
        selection_within(moved_first(sel, len), len),
        selection_within(moved_last(sel, len), len),
        selection_within(paged_down(sel, len, page), len),
        selection_within(paged_up(sel, page), len),
        selection_within(first_selection(len), len),
{
}

} // verus!
