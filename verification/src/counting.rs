//! Counting and selecting indices: the measures behind cohort sizes, ranks
//! and per-signal series.
use vstd::prelude::*;

verus! {

/// Number of indices `k` in `0..n` for which `p(k)` holds.
pub open spec fn count_where(n: int, p: spec_fn(int) -> bool) -> nat
    decreases n,
{
    if n <= 0 {
        0
    } else {
        count_where(n - 1, p) + (if p(n - 1) { 1nat } else { 0nat })
    }
}

/// A count over `0..n` is at most `n`.
pub proof fn lemma_count_at_most_range(n: int, p: spec_fn(int) -> bool)
    requires
        0 <= n,
    ensures
        count_where(n, p) <= n,
    decreases n,
{
    if n > 0 {
        lemma_count_at_most_range(n - 1, p);
    }
}

/// A predicate that holds wherever `p` holds counts at least as many indices.
pub proof fn lemma_count_monotone(n: int, p: spec_fn(int) -> bool, q: spec_fn(int) -> bool)
    requires
        forall|k: int| 0 <= k < n && #[trigger] p(k) ==> q(k),
    ensures
        count_where(n, p) <= count_where(n, q),
    decreases n,
{
    if n > 0 {
        lemma_count_monotone(n - 1, p, q);
    }
}

/// If moreover `q` holds at a witness `w` where `p` fails, the count is strictly larger.
pub proof fn lemma_count_strictly_monotone(
    n: int,
    p: spec_fn(int) -> bool,
    q: spec_fn(int) -> bool,
    w: int,
)
    requires
        forall|k: int| 0 <= k < n && #[trigger] p(k) ==> q(k),
        0 <= w < n,
        q(w),
        !p(w),
    ensures
        count_where(n, p) < count_where(n, q),
    decreases n,
{
    if w == n - 1 {
        lemma_count_monotone(n - 1, p, q);
    } else {
        lemma_count_strictly_monotone(n - 1, p, q, w);
    }
}

/// Removing one index where `p` holds lowers the count by exactly one.
pub proof fn lemma_count_without(n: int, p: spec_fn(int) -> bool, w: int)
    requires
        0 <= w < n,
        p(w),
    ensures
        count_where(n, |k: int| p(k) && k != w) + 1 == count_where(n, p),
    decreases n,
{
    let q = |k: int| p(k) && k != w;
    if w == n - 1 {
        assert forall|k: int| 0 <= k < n - 1 implies #[trigger] q(k) == p(k) by {}
        lemma_count_equal(n - 1, q, p);
    } else {
        lemma_count_without(n - 1, p, w);
    }
}

/// Predicates that agree on `0..n` count alike.
pub proof fn lemma_count_equal(n: int, p: spec_fn(int) -> bool, q: spec_fn(int) -> bool)
    requires
        forall|k: int| 0 <= k < n ==> #[trigger] p(k) == q(k),
    ensures
        count_where(n, p) == count_where(n, q),
    decreases n,
{
    if n > 0 {
        lemma_count_equal(n - 1, p, q);
    }
}

/// Positions of the elements of `s` that satisfy `p`, in order.
pub open spec fn indices_where<T>(s: Seq<T>, p: spec_fn(T) -> bool) -> Seq<int>
    decreases s.len(),
{
    if s.len() == 0 {
        Seq::empty()
    } else {
        let prev = indices_where(s.drop_last(), p);
        if p(s.last()) {
            prev.push(s.len() - 1)
        } else {
            prev
        }
    }
}

/// The positions of `usize` indices, as integers.
pub open spec fn as_positions(v: Seq<usize>) -> Seq<int> {
    v.map_values(|x: usize| x as int)
}

/// Every selected position is in range, satisfies `p`, and positions increase.
pub proof fn lemma_indices_where_valid<T>(s: Seq<T>, p: spec_fn(T) -> bool)
    ensures
        forall|m: int|
            0 <= m < indices_where(s, p).len() ==> 0 <= #[trigger] indices_where(s, p)[m] < s.len()
                && p(s[indices_where(s, p)[m]]),
        forall|m1: int, m2: int|
            0 <= m1 < m2 < indices_where(s, p).len() ==> #[trigger] indices_where(s, p)[m1]
                < #[trigger] indices_where(s, p)[m2],
    decreases s.len(),
{
    if s.len() > 0 {
        let prev = s.drop_last();
        lemma_indices_where_valid(prev, p);
        let r = indices_where(s, p);
        let pr = indices_where(prev, p);
        assert forall|m: int| 0 <= m < r.len() implies 0 <= #[trigger] r[m] < s.len() && p(s[r[m]]) by {
            if m < pr.len() {
                assert(r[m] == pr[m]);
                assert(prev[pr[m]] == s[pr[m]]);
            }
        }
        assert forall|m1: int, m2: int| 0 <= m1 < m2 < r.len() implies #[trigger] r[m1] < #[trigger] r[m2] by {
            if m2 < pr.len() {
                assert(r[m1] == pr[m1]);
                assert(r[m2] == pr[m2]);
            } else {
                assert(r[m1] == pr[m1]);
            }
        }
    }
}

/// Every position whose element satisfies `p` is selected.
pub proof fn lemma_indices_where_complete<T>(s: Seq<T>, p: spec_fn(T) -> bool, k: int)
    requires
        0 <= k < s.len(),
        p(s[k]),
    ensures
        exists|m: int| 0 <= m < indices_where(s, p).len() && #[trigger] indices_where(s, p)[m] == k,
    decreases s.len(),
{
    let prev = s.drop_last();
    let r = indices_where(s, p);
    if k == s.len() - 1 {
        assert(r[r.len() - 1] == k);
    } else {
        assert(prev[k] == s[k]);
        lemma_indices_where_complete(prev, p, k);
        let m = choose|m: int| 0 <= m < indices_where(prev, p).len() && #[trigger] indices_where(prev, p)[m] == k;
        assert(r[m] == k);
    }
}

/// The selected positions are exactly those whose element satisfies `p`:
/// none is selected when no element satisfies it, the first selected is the
/// first such position, and the last selected is the last one.
pub proof fn lemma_indices_where_bounds<T>(s: Seq<T>, p: spec_fn(T) -> bool)
    ensures
        indices_where(s, p).len() == 0 <==> forall|k: int| 0 <= k < s.len() ==> !p(#[trigger] s[k]),
        indices_where(s, p).len() > 0 ==> forall|k: int|
            0 <= k < indices_where(s, p)[0] ==> !p(#[trigger] s[k]),
        indices_where(s, p).len() > 0 ==> forall|k: int|
            indices_where(s, p).last() < k < s.len() ==> !p(#[trigger] s[k]),
{
    let r = indices_where(s, p);
    lemma_indices_where_valid(s, p);
    assert forall|k: int| 0 <= k < s.len() && p(#[trigger] s[k]) implies r.len() > 0 && r[0] <= k && k <= r.last() by {
        lemma_indices_where_complete(s, p, k);
        let m = choose|m: int| 0 <= m < r.len() && #[trigger] r[m] == k;
        if m > 0 {
            assert(r[0] < r[m]);
        }
        if m < r.len() - 1 {
            assert(r[m] < r[r.len() - 1]);
        }
    }
    if r.len() > 0 {
        assert(0 <= r[0] < s.len() && p(s[r[0]]));
    }
}

/// Extending the scanned prefix by one element extends the selection by that
/// element exactly when it satisfies `p`.
pub proof fn lemma_indices_where_step<T>(s: Seq<T>, p: spec_fn(T) -> bool, i: int)
    requires
        0 <= i < s.len(),
    ensures
        indices_where(s.take(i + 1), p) == if p(s[i]) {
            indices_where(s.take(i), p).push(i)
        } else {
            indices_where(s.take(i), p)
        },
{
    assert(s.take(i + 1).drop_last() =~= s.take(i));
}

/// The indices in `0..n` satisfying `p`, as a set.
pub open spec fn index_set(n: int, p: spec_fn(int) -> bool) -> Set<int> {
    Set::new(|k: int| 0 <= k < n && p(k))
}

/// The set of indices satisfying `p` is finite and has `count_where(n, p)`
/// elements.
pub proof fn lemma_index_set_len(n: int, p: spec_fn(int) -> bool)
    requires
        0 <= n,
    ensures
        index_set(n, p).finite(),
        index_set(n, p).len() == count_where(n, p),
    decreases n,
{
    if n == 0 {
        assert(index_set(n, p) =~= Set::<int>::empty());
    } else {
        lemma_index_set_len(n - 1, p);
        if p(n - 1) {
            assert(index_set(n, p) =~= index_set(n - 1, p).insert(n - 1));
        } else {
            assert(index_set(n, p) =~= index_set(n - 1, p));
        }
    }
}

/// The elements of `s` that satisfy `p`, in order.
pub open spec fn select_where<T>(s: Seq<T>, p: spec_fn(T) -> bool) -> Seq<T>
    decreases s.len(),
{
    if s.len() == 0 {
        Seq::empty()
    } else {
        let prev = select_where(s.drop_last(), p);
        if p(s.last()) {
            prev.push(s.last())
        } else {
            prev
        }
    }
}

/// Selecting the elements is reading `s` at the selected positions.
pub proof fn lemma_select_is_indexed<T>(s: Seq<T>, p: spec_fn(T) -> bool)
    ensures
        select_where(s, p).len() == indices_where(s, p).len(),
        forall|m: int|
            0 <= m < select_where(s, p).len() ==> #[trigger] select_where(s, p)[m] == s[indices_where(s, p)[m]],
    decreases s.len(),
{
    if s.len() > 0 {
        let prev = s.drop_last();
        lemma_select_is_indexed(prev, p);
        lemma_indices_where_valid(prev, p);
        let sel = select_where(s, p);
        let ix = indices_where(s, p);
        assert forall|m: int| 0 <= m < sel.len() implies #[trigger] sel[m] == s[ix[m]] by {
            if m < select_where(prev, p).len() {
                assert(prev[indices_where(prev, p)[m]] == s[indices_where(prev, p)[m]]);
            }
        }
    }
}

/// Selecting with `p` after first keeping the elements satisfying `r` gives
/// the same as selecting with `p` directly, whenever `p` implies `r`.
pub proof fn lemma_select_after_keep<T>(s: Seq<T>, p: spec_fn(T) -> bool, r: spec_fn(T) -> bool)
    requires
        forall|x: T| #[trigger] p(x) ==> r(x),
    ensures
        select_where(select_where(s, r), p) == select_where(s, p),
    decreases s.len(),
{
    if s.len() > 0 {
        let prev = s.drop_last();
        lemma_select_after_keep(prev, p, r);
        let kept = select_where(prev, r);
        if r(s.last()) {
            assert(kept.push(s.last()).drop_last() =~= kept);
        }
    }
}

} // verus!
