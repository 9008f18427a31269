//! Stable sorting by a strict order.

use vstd::prelude::*;
use crate::model;

verus! {

/// `lt` is a strict weak order: nothing stands before itself, and both "before" and
/// "not before" carry over along a chain.
pub open spec fn strict_order<A>(lt: spec_fn(A, A) -> bool) -> bool {
    &&& forall|a: A| !#[trigger] lt(a, a)
    &&& forall|a: A, b: A, c: A| #[trigger] lt(a, b) && #[trigger] lt(b, c) ==> lt(a, c)
    &&& forall|a: A, b: A, c: A| !#[trigger] lt(a, b) && !#[trigger] lt(b, c) ==> !lt(a, c)
}

/// `p` lists every position below `n` exactly once.
pub open spec fn permutation(p: Seq<int>, n: nat) -> bool {
    &&& p.len() == n
    &&& p.no_duplicates()
    &&& forall|i: int| 0 <= i < n ==> 0 <= #[trigger] p[i] < n
}

/// `out` holds the items of `s` in the order `p`; no item stands behind one that it
/// belongs before, and items that belong before neither of each other keep the order
/// that they have in `s`.
pub open spec fn ordered_by<A>(
    s: Seq<A>,
    out: Seq<A>,
    lt: spec_fn(A, A) -> bool,
    p: Seq<int>,
) -> bool {
    &&& permutation(p, s.len())
    &&& out.len() == s.len()
    &&& forall|i: int| 0 <= i < out.len() ==> #[trigger] out[i] == s[p[i]]
    &&& forall|i: int, j: int|
        0 <= i < j < out.len() ==> !lt(#[trigger] out[j], #[trigger] out[i])
    &&& forall|i: int, j: int|
        0 <= i < j < out.len() && !lt(out[i], out[j]) ==> #[trigger] p[i] < #[trigger] p[j]
}

/// `out` is `s` sorted by `lt`, with equals kept in their order.
pub open spec fn is_stable_sort<A>(s: Seq<A>, out: Seq<A>, lt: spec_fn(A, A) -> bool) -> bool {
    exists|p: Seq<int>| ordered_by(s, out, lt, p)
}

/// `x` put into `s` behind the last item that it does not belong before.
pub open spec fn put<A>(s: Seq<A>, x: A, lt: spec_fn(A, A) -> bool) -> Seq<A>
    decreases s.len(),
{
    if s.len() == 0 || !lt(x, s.last()) {
        s.push(x)
    } else {
        put(s.drop_last(), x, lt).push(s.last())
    }
}

/// The items of `s` in the order of `lt`; see `lemma_stable_sort`.
pub open spec fn stable_sort<A>(s: Seq<A>, lt: spec_fn(A, A) -> bool) -> Seq<A>
    decreases s.len(),
{
    if s.len() == 0 {
        s
    } else {
        put(stable_sort(s.drop_last(), lt), s.last(), lt)
    }
}

/// Where `put` puts its item.
pub open spec fn put_index<A>(s: Seq<A>, x: A, lt: spec_fn(A, A) -> bool) -> int
    decreases s.len(),
{
    if s.len() == 0 || !lt(x, s.last()) {
        s.len() as int
    } else {
        put_index(s.drop_last(), x, lt)
    }
}

pub proof fn lemma_put<A>(s: Seq<A>, x: A, lt: spec_fn(A, A) -> bool)
    ensures
        0 <= put_index(s, x, lt) <= s.len(),
        put(s, x, lt) == s.insert(put_index(s, x, lt), x),
        put_index(s, x, lt) > 0 ==> !lt(x, s[put_index(s, x, lt) - 1]),
        forall|i: int| put_index(s, x, lt) <= i < s.len() ==> lt(x, #[trigger] s[i]),
    decreases s.len(),
{
    if s.len() == 0 || !lt(x, s.last()) {
        assert(s.push(x) =~= s.insert(s.len() as int, x));
    } else {
        let t = s.drop_last();
        let k = put_index(t, x, lt);
        lemma_put(t, x, lt);
        assert(t.insert(k, x).push(s.last()) =~= s.insert(k, x));
        assert forall|i: int| k <= i < s.len() implies lt(x, #[trigger] s[i]) by {
            if i < t.len() {
                assert(s[i] == t[i]);
            }
        }
    }
}

/// Putting one more item into a sorted sequence keeps it sorted and stable.
proof fn lemma_put_ordered<A>(
    s: Seq<A>,
    out: Seq<A>,
    x: A,
    lt: spec_fn(A, A) -> bool,
    p: Seq<int>,
)
    requires
        strict_order(lt),
        ordered_by(s, out, lt, p),
    ensures
        is_stable_sort(s.push(x), put(out, x, lt), lt),
{
    lemma_put(out, x, lt);
    let k = put_index(out, x, lt);
    let next = put(out, x, lt);
    let all = s.push(x);
    let n = s.len() as int;
    let q = p.insert(k, n);
    assert forall|i: int| 0 <= i < next.len() implies #[trigger] next[i] == all[q[i]] by {
        if i < k {
            assert(next[i] == out[i] && q[i] == p[i]);
        } else if i > k {
            assert(next[i] == out[i - 1] && q[i] == p[i - 1]);
        }
    }
    assert forall|i: int| 0 <= i < q.len() implies 0 <= #[trigger] q[i] < all.len() by {
        if i < k {
            assert(q[i] == p[i]);
        } else if i > k {
            assert(q[i] == p[i - 1]);
        }
    }
    assert forall|i: int, j: int|
        0 <= i < q.len() && 0 <= j < q.len() && i != j implies q[i] != q[j] by {
        let a = if i < k { p[i] } else if i > k { p[i - 1] } else { n };
        let b = if j < k { p[j] } else if j > k { p[j - 1] } else { n };
        assert(q[i] == a && q[j] == b);
    }
    assert forall|i: int, j: int| 0 <= i < j < next.len() implies !lt(
        #[trigger] next[j],
        #[trigger] next[i],
    ) && (!lt(next[i], next[j]) ==> q[i] < q[j]) by {
        if j < k {
            assert(next[j] == out[j] && next[i] == out[i]);
            assert(q[i] == p[i] && q[j] == p[j]);
        } else if j == k {
            assert(next[i] == out[i]);
            assert(q[i] == p[i]);
            // The item at `k - 1` is not behind `x`, and nothing before it is either.
            if i < k - 1 {
                assert(!lt(out[k - 1], out[i]));
            }
            assert(!lt(x, out[k - 1]));
        } else if i < k {
            assert(next[j] == out[j - 1] && next[i] == out[i]);
            assert(q[i] == p[i] && q[j] == p[j - 1]);
        } else if i == k {
            assert(next[j] == out[j - 1]);
            assert(lt(x, out[j - 1]));
            assert(!lt(out[j - 1], x)) by {
                if lt(out[j - 1], x) {
                    assert(lt(x, x));
                }
            }
        } else {
            assert(next[j] == out[j - 1] && next[i] == out[i - 1]);
            assert(q[i] == p[i - 1] && q[j] == p[j - 1]);
        }
    }
    assert(ordered_by(all, next, lt, q));
}

/// Sorting gives the same items, in the order of `lt`, and leaves items that belong
/// before neither of each other as they stood.
pub proof fn lemma_stable_sort<A>(s: Seq<A>, lt: spec_fn(A, A) -> bool)
    requires
        strict_order(lt),
    ensures
        is_stable_sort(s, stable_sort(s, lt), lt),
    decreases s.len(),
{
    if s.len() == 0 {
        assert(ordered_by(s, s, lt, seq![]));
    } else {
        let t = s.drop_last();
        lemma_stable_sort(t, lt);
        let p = choose|p: Seq<int>| ordered_by(t, stable_sort(t, lt), lt, p);
        lemma_put_ordered(t, stable_sort(t, lt), s.last(), lt, p);
        assert(t.push(s.last()) =~= s);
    }
}

/// Sorting keeps the number of items.
pub proof fn lemma_stable_sort_len<A>(s: Seq<A>, lt: spec_fn(A, A) -> bool)
    ensures
        stable_sort(s, lt).len() == s.len(),
    decreases s.len(),
{
    if s.len() > 0 {
        lemma_stable_sort_len(s.drop_last(), lt);
        lemma_put(stable_sort(s.drop_last(), lt), s.last(), lt);
    }
}

/// Sorting neither adds nor loses an item.
pub proof fn lemma_stable_sort_contains<A>(s: Seq<A>, lt: spec_fn(A, A) -> bool)
    ensures
        forall|x: A| #[trigger] stable_sort(s, lt).contains(x) <==> s.contains(x),
    decreases s.len(),
{
    if s.len() > 0 {
        let t = s.drop_last();
        let sorted = stable_sort(t, lt);
        let k = put_index(sorted, s.last(), lt);
        lemma_stable_sort_contains(t, lt);
        lemma_put(sorted, s.last(), lt);
        let out = stable_sort(s, lt);
        assert forall|x: A| #[trigger] out.contains(x) <==> s.contains(x) by {
            if out.contains(x) {
                let i = choose|i: int| 0 <= i < out.len() && out[i] == x;
                if i == k {
                    assert(s[s.len() - 1] == x);
                } else {
                    assert(sorted[if i < k { i } else { i - 1 }] == x);
                    assert(sorted.contains(x));
                    let j = choose|j: int| 0 <= j < t.len() && t[j] == x;
                    assert(s[j] == x);
                }
            }
            if s.contains(x) {
                let j = choose|j: int| 0 <= j < s.len() && s[j] == x;
                if j == s.len() - 1 {
                    assert(out[k] == x);
                } else {
                    assert(t[j] == x);
                    assert(t.contains(x) && sorted.contains(x));
                    let i = choose|i: int| 0 <= i < sorted.len() && sorted[i] == x;
                    assert(out[if i < k { i } else { i + 1 }] == x);
                }
            }
        }
    }
}

/// A permutation reaches every position.
proof fn lemma_permutation_onto(p: Seq<int>, n: nat, k: int)
    requires
        permutation(p, n),
        0 <= k < n,
    ensures
        exists|i: int| 0 <= i < n && #[trigger] p[i] == k,
{
    let range = vstd::set_lib::set_int_range(0, n as int);
    vstd::set_lib::lemma_int_range(0, n as int);
    p.unique_seq_to_set();
    assert forall|x: int| #[trigger] p.to_set().contains(x) implies range.contains(x) by {
        assert(p.contains(x));
        let i = choose|i: int| 0 <= i < p.len() && p[i] == x;
        assert(0 <= p[i] < n);
    }
    vstd::set_lib::lemma_subset_equality(p.to_set(), range);
    assert(range.contains(k));
    assert(p.contains(k));
}

/// Two orders of the same items that agree up to `i` agree at `i`.
proof fn lemma_same_next<A>(
    s: Seq<A>,
    a: Seq<A>,
    b: Seq<A>,
    lt: spec_fn(A, A) -> bool,
    p: Seq<int>,
    q: Seq<int>,
    i: int,
)
    requires
        strict_order(lt),
        ordered_by(s, a, lt, p),
        ordered_by(s, b, lt, q),
        0 <= i < s.len(),
        forall|j: int| 0 <= j < i ==> p[j] == q[j],
    ensures
        p[i] == q[i],
{
    if p[i] != q[i] {
        assert(0 <= p[i] < s.len() && 0 <= q[i] < s.len());
        lemma_permutation_onto(p, s.len(), q[i]);
        lemma_permutation_onto(q, s.len(), p[i]);
        let x = choose|x: int| 0 <= x < s.len() && #[trigger] p[x] == q[i];
        let y = choose|y: int| 0 <= y < s.len() && #[trigger] q[y] == p[i];
        assert(x > i) by {
            if x < i {
                assert(q[x] == q[i]);
            }
        }
        assert(y > i) by {
            if y < i {
                assert(p[y] == p[i]);
            }
        }
        assert(a[i] == s[p[i]] && a[x] == s[q[i]]);
        assert(b[i] == s[q[i]] && b[y] == s[p[i]]);
        assert(!lt(a[x], a[i]));
        assert(!lt(b[y], b[i]));
    }
}

/// There is only one stable sort of a sequence.
pub proof fn law_stable_sort_is_unique<A>(
    s: Seq<A>,
    a: Seq<A>,
    b: Seq<A>,
    lt: spec_fn(A, A) -> bool,
)
    requires
        strict_order(lt),
        is_stable_sort(s, a, lt),
        is_stable_sort(s, b, lt),
    ensures
        a == b,
{
    let p = choose|p: Seq<int>| ordered_by(s, a, lt, p);
    let q = choose|q: Seq<int>| ordered_by(s, b, lt, q);
    lemma_same_prefix(s, a, b, lt, p, q, s.len() as int);
    assert forall|i: int| 0 <= i < s.len() implies a[i] == b[i] by {
        assert(a[i] == s[p[i]] && b[i] == s[q[i]]);
    }
    assert(a =~= b);
}

proof fn lemma_same_prefix<A>(
    s: Seq<A>,
    a: Seq<A>,
    b: Seq<A>,
    lt: spec_fn(A, A) -> bool,
    p: Seq<int>,
    q: Seq<int>,
    n: int,
)
    requires
        strict_order(lt),
        ordered_by(s, a, lt, p),
        ordered_by(s, b, lt, q),
        0 <= n <= s.len(),
    ensures
        forall|j: int| 0 <= j < n ==> p[j] == q[j],
    decreases n,
{
    if n > 0 {
        lemma_same_prefix(s, a, b, lt, p, q, n - 1);
        lemma_same_next(s, a, b, lt, p, q, n - 1);
    }
}

/// The items in the order of `lt`, with equals kept in their order. `less` decides on
/// the items what `lt` says of their views.
pub(crate) fn sort_refs<'a, T: View, F: Fn(&T, &T) -> bool>(
    items: &Vec<&'a T>,
    less: F,
    Ghost(lt): Ghost<spec_fn(T::V, T::V) -> bool>,
) -> (out: Vec<&'a T>)
    requires
        forall|a: &T, b: &T| #[trigger] less.requires((a, b)),
        forall|a: &T, b: &T, r: bool| #[trigger] less.ensures((a, b), r) ==> r == lt(a@, b@),
    ensures
        model::views(out@) == stable_sort(model::views(items@), lt),
{
    let mut out: Vec<&'a T> = Vec::new();
    let mut n: usize = 0;
    assert(model::views(out@) =~= model::views(items@).take(0));
    while n < items.len()
        invariant
            n <= items@.len(),
            forall|a: &T, b: &T| #[trigger] less.requires((a, b)),
            forall|a: &T, b: &T, r: bool| #[trigger] less.ensures((a, b), r) ==> r == lt(a@, b@),
            model::views(out@) == stable_sort(model::views(items@).take(n as int), lt),
        decreases items@.len() - n,
    {
        let item = items[n];
        let ghost before = model::views(out@);
        let ghost old_out = out@;
        let mut k: usize = out.len();
        assert(before.take(k as int) =~= before);
        while k > 0 && less(item, out[k - 1])
            invariant
                k <= out@.len(),
                out@ == old_out,
                before == model::views(out@),
                forall|a: &T, b: &T| #[trigger] less.requires((a, b)),
                forall|a: &T, b: &T, r: bool|
                    #[trigger] less.ensures((a, b), r) ==> r == lt(a@, b@),
                put_index(before.take(k as int), item@, lt) == put_index(before, item@, lt),
            decreases k,
        {
            assert(before.take(k as int).last() == out@[k - 1]@);
            assert(before.take(k as int).drop_last() =~= before.take(k - 1));
            k = k - 1;
        }
        assert(k == put_index(before, item@, lt)) by {
            if k > 0 {
                assert(before.take(k as int).last() == out@[k - 1]@);
            }
        }
        out.insert(k, item);
        proof {
            lemma_put(before, item@, lt);
            assert(model::views(out@) =~= before.insert(k as int, item@));
            let head = model::views(items@).take(n + 1);
            assert(head.drop_last() =~= model::views(items@).take(n as int));
            assert(head.last() == item@);
        }
        n = n + 1;
    }
    assert(model::views(items@).take(n as int) =~= model::views(items@));
    out
}

} // verus!
