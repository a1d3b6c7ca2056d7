//! Counting and searching over index ranges, for specifications that speak
//! of "the first" or "how many".

use vstd::prelude::*;

verus! {

/// Whether `i` is the first index below `n` at which `p` holds.
pub open spec fn is_first(p: spec_fn(int) -> bool, n: int, i: int) -> bool {
    &&& 0 <= i < n
    &&& p(i)
    &&& forall|j: int| 0 <= j < i ==> !#[trigger] p(j)
}

/// The first index below `n` at which `p` holds, if there is one.
pub open spec fn first_where(p: spec_fn(int) -> bool, n: int) -> Option<int> {
    if exists|i: int| is_first(p, n, i) {
        Some(choose|i: int| is_first(p, n, i))
    } else {
        None
    }
}

/// An index that is a first match is the one that [`first_where`] names.
pub proof fn lemma_first_where_found(p: spec_fn(int) -> bool, n: int, i: int)
    requires
        is_first(p, n, i),
    ensures
        first_where(p, n) == Some(i),
{
    let c = choose|c: int| is_first(p, n, c);
    if c < i {
        assert(!p(c));
    } else if i < c {
        assert(!p(i));
    }
}

/// Where `p` holds nowhere below `n`, there is no first match.
pub proof fn lemma_first_where_none(p: spec_fn(int) -> bool, n: int)
    requires
        forall|j: int| 0 <= j < n ==> !#[trigger] p(j),
    ensures
        first_where(p, n) is None,
{
    if exists|i: int| is_first(p, n, i) {
        let c = choose|c: int| is_first(p, n, c);
        assert(!p(c));
    }
}

/// What [`first_where`] names is a first match; where it names nothing, `p`
/// holds nowhere below `n`.
pub proof fn lemma_first_where_is_first(p: spec_fn(int) -> bool, n: int)
    ensures
        match first_where(p, n) {
            Some(i) => is_first(p, n, i),
            None => forall|j: int| 0 <= j < n ==> !#[trigger] p(j),
        },
{
    if exists|i: int| is_first(p, n, i) {
    } else {
        assert forall|j: int| 0 <= j < n implies !#[trigger] p(j) by {
            if p(j) {
                lemma_some_first(p, n, j);
            }
        }
    }
}

proof fn lemma_some_first(p: spec_fn(int) -> bool, n: int, w: int)
    requires
        0 <= w < n,
        p(w),
    ensures
        exists|i: int| is_first(p, n, i),
    decreases w,
{
    if exists|j: int| 0 <= j < w && #[trigger] p(j) {
        let j = choose|j: int| 0 <= j < w && #[trigger] p(j);
        lemma_some_first(p, n, j);
    } else {
        assert(is_first(p, n, w));
    }
}

/// The number of indices below `n` at which `p` holds.
pub open spec fn count_where(p: spec_fn(int) -> bool, n: int) -> nat
    decreases n,
{
    if n <= 0 {
        0
    } else if p(n - 1) {
        count_where(p, n - 1) + 1
    } else {
        count_where(p, n - 1)
    }
}

/// The elements of `s` below index `n` that satisfy `keep`, in order.
pub open spec fn kept<T>(s: Seq<T>, keep: spec_fn(T) -> bool, n: int) -> Seq<T>
    decreases n,
{
    if n <= 0 {
        Seq::empty()
    } else if keep(s[n - 1]) {
        kept(s, keep, n - 1).push(s[n - 1])
    } else {
        kept(s, keep, n - 1)
    }
}

} // verus!
