use vstd::prelude::*;

verus! {

/// The index that follows `i` among `n` items, wrapping from the last to the first.
pub open spec fn next_index(i: int, n: int) -> int {
    if i == n - 1 {
        0
    } else if i + 1 > usize::MAX {
        usize::MAX as int
    } else {
        i + 1
    }
}

/// The index that precedes `i` among `n` items, wrapping from the first to the last.
pub open spec fn prev_index(i: int, n: int) -> int {
    if i == 0 {
        n - 1
    } else {
        i - 1
    }
}

/// Moves an index one step forward among `n` items.
pub fn step_next(i: usize, n: usize) -> (r: usize)
    requires
        n > 0,
    ensures
        r == next_index(i as int, n as int),
{
    if i == n - 1 {
        0
    } else {
        i.saturating_add(1)
    }
}

/// Moves an index one step back among `n` items.
pub fn step_prev(i: usize, n: usize) -> (r: usize)
    requires
        n > 0,
    ensures
        r == prev_index(i as int, n as int),
{
    if i == 0 {
        n - 1
    } else {
        i - 1
    }
}

/// Among `n` items, a step forward and then a step back return to the index
/// started from, and so do a step back and then a step forward; this holds at
/// both ends, where one of the two steps wraps.
pub proof fn lemma_next_then_prev(i: int, n: int)
    requires
        0 <= i < n,
        n <= usize::MAX,
    ensures
        prev_index(next_index(i, n), n) == i,
        next_index(prev_index(i, n), n) == i,
        0 <= next_index(i, n) < n,
        0 <= prev_index(i, n) < n,
{
}

} // verus!
