//! Searching for the first index at which something holds.

use vstd::prelude::*;

verus! {

/// The least `i` in `0..n` for which `p` holds, or `n` if there is none.
pub open spec fn first_such(n: int, p: spec_fn(int) -> bool) -> int
    decreases n,
{
    if n <= 0 {
        0
    } else {
        let before = first_such(n - 1, p);
        if before < n - 1 {
            before
        } else if p(n - 1) {
            n - 1
        } else {
            n
        }
    }
}

/// `first_such(n, p)` is in `0..=n`, `p` fails before it and holds at it.
pub proof fn lemma_first_such(n: int, p: spec_fn(int) -> bool)
    requires
        0 <= n,
    ensures
        0 <= first_such(n, p) <= n,
        forall|j: int| 0 <= j < first_such(n, p) ==> !#[trigger] p(j),
        first_such(n, p) < n ==> p(first_such(n, p)),
    decreases n,
{
    if n > 0 {
        lemma_first_such(n - 1, p);
    }
}

/// Once found, the first index stays the first however far the search goes.
pub proof fn lemma_first_such_stays(m: int, n: int, p: spec_fn(int) -> bool)
    requires
        0 <= m <= n,
        first_such(m, p) < m,
    ensures
        first_such(n, p) == first_such(m, p),
    decreases n - m,
{
    if m < n {
        lemma_first_such_stays(m, n - 1, p);
    }
}

/// The first index depends on the predicate only as far as the search goes.
pub proof fn lemma_first_such_agrees(n: int, p: spec_fn(int) -> bool, q: spec_fn(int) -> bool)
    requires
        forall|i: int| 0 <= i < n ==> #[trigger] p(i) == q(i),
    ensures
        first_such(n, p) == first_such(n, q),
    decreases n,
{
    if n > 0 {
        lemma_first_such_agrees(n - 1, p, q);
    }
}

} // verus!
