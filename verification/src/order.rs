//! Putting lists in order.
use vstd::prelude::*;

verus! {

/// A total order, that may not tell all values apart.
pub open spec fn orders<T>(le: spec_fn(T, T) -> bool) -> bool {
    &&& forall|a: T, b: T| #[trigger] le(a, b) || le(b, a)
    &&& forall|a: T, b: T, c: T| #[trigger] le(a, b) && #[trigger] le(b, c) ==> le(a, c)
}

pub open spec fn in_order<T>(v: Seq<T>, le: spec_fn(T, T) -> bool) -> bool {
    forall|i: int, j: int| 0 <= i <= j < v.len() ==> le(#[trigger] v[i], #[trigger] v[j])
}

/// The values that an order does not tell from `x`.
pub open spec fn like<T>(x: T, le: spec_fn(T, T) -> bool) -> spec_fn(T) -> bool {
    |y: T| le(x, y) && le(y, x)
}

/// `r` holds the values of `s` in order, and those that the order does not
/// tell apart stand as they stood in `s`.
pub open spec fn stably_sorted<T>(r: Seq<T>, s: Seq<T>, le: spec_fn(T, T) -> bool) -> bool {
    &&& in_order(r, le)
    &&& r.to_multiset() == s.to_multiset()
    &&& forall|x: T| #[trigger] r.filter(like(x, le)) == s.filter(like(x, le))
}

/// Placing a value before those that it is not after keeps a list in order.
proof fn placed<T>(out: Seq<T>, s: Seq<T>, x: T, p: int, le: spec_fn(T, T) -> bool)
    requires
        orders(le),
        stably_sorted(out, s, le),
        0 <= p <= out.len(),
        forall|k: int| 0 <= k < p ==> !le(x, #[trigger] out[k]),
        p < out.len() ==> le(x, out[p]),
    ensures
        stably_sorted(out.insert(p, x), seq![x] + s, le),
{
    let r = out.insert(p, x);
    let a = out.take(p);
    let b = out.skip(p);
    assert(r =~= a + (seq![x] + b));
    assert(out =~= a + b);
    assert forall|i: int, j: int| 0 <= i <= j < r.len() implies le(
        #[trigger] r[i],
        #[trigger] r[j],
    ) by {
        if i < p && j == p {
            assert(le(out[i], x) || le(x, out[i]));
        } else if i == p && j > p {
            assert(le(out[p], out[j - 1]));
        } else if i == j {
            assert(le(r[i], r[i]) || le(r[i], r[i]));
        } else if i < p && j > p {
            assert(le(out[i], out[j - 1]));
        } else if i < p && j < p {
            assert(le(out[i], out[j]));
        } else {
            assert(le(out[i - 1], out[j - 1]));
        }
    }
    broadcast use vstd::seq_lib::group_to_multiset_ensures;
    vstd::seq_lib::lemma_multiset_commutative(a, seq![x] + b);
    vstd::seq_lib::lemma_multiset_commutative(seq![x], b);
    vstd::seq_lib::lemma_multiset_commutative(a, b);
    vstd::seq_lib::lemma_multiset_commutative(seq![x], s);
    assert(r.to_multiset() =~= (seq![x] + s).to_multiset());
    assert forall|c: T| #[trigger]
        r.filter(like(c, le)) == (seq![x] + s).filter(like(c, le)) by {
        let f = like(c, le);
        Seq::filter_distributes_over_add(a, seq![x] + b, f);
        Seq::filter_distributes_over_add(seq![x], b, f);
        Seq::filter_distributes_over_add(a, b, f);
        Seq::filter_distributes_over_add(seq![x], s, f);
        assert(out.filter(f) == s.filter(f));
        if f(x) {
            assert forall|k: int| 0 <= k < a.len() implies !f(#[trigger] a[k]) by {
                assert(!le(x, out[k]));
                if f(out[k]) {
                    assert(le(x, c) && le(c, out[k]));
                }
            }
            a.lemma_all_neg_filter_empty(f);
            assert(a.filter(f) =~= seq![]);
            assert(a.filter(f) + (seq![x].filter(f) + b.filter(f)) =~= seq![x].filter(f) + (
            a.filter(f) + b.filter(f)));
        } else {
            assert(seq![x].filter(f) =~= seq![]) by {
                seq![x].lemma_all_neg_filter_empty(f);
            }
            assert(a.filter(f) + (seq![x].filter(f) + b.filter(f)) =~= seq![x].filter(f) + (
            a.filter(f) + b.filter(f)));
        }
    }
}

/// Sorts a list by an order on what `view` shows of its values; what the
/// order does not tell apart stays as it stood.
pub(crate) fn stable_sort<T, V, F: Fn(&T, &T) -> bool>(
    v: Vec<T>,
    not_after: F,
    Ghost(view): Ghost<spec_fn(T) -> V>,
    Ghost(le): Ghost<spec_fn(V, V) -> bool>,
) -> (r: Vec<T>)
    requires
        orders(le),
        forall|a: T, b: T| call_requires(not_after, (&a, &b)),
        forall|a: T, b: T, c: bool| #[trigger]
            call_ensures(not_after, (&a, &b), c) ==> c == le(view(a), view(b)),
    ensures
        stably_sorted(r@.map_values(view), v@.map_values(view), le),
{
    let ghost all = v@.map_values(view);
    let mut rest = v;
    let mut out: Vec<T> = Vec::new();
    proof {
        assert(all.skip(all.len() as int) =~= seq![]);
        assert(out@.map_values(view) =~= seq![]);
    }
    while rest.len() > 0
        invariant
            orders(le),
            forall|a: T, b: T| call_requires(not_after, (&a, &b)),
            forall|a: T, b: T, c: bool| #[trigger]
                call_ensures(not_after, (&a, &b), c) ==> c == le(view(a), view(b)),
            rest@.len() <= all.len(),
            rest@.map_values(view) == all.take(rest@.len() as int),
            stably_sorted(out@.map_values(view), all.skip(rest@.len() as int), le),
        decreases rest@.len(),
    {
        let ghost n = rest@.len() as int;
        let ghost before = rest@;
        if let Some(x) = rest.pop() {
            assert(before.map_values(view)[n - 1] == view(x));
            assert(all.take(n)[n - 1] == all[n - 1]);
            assert(rest@.map_values(view) =~= before.map_values(view).drop_last());
            assert(all.take(n).drop_last() =~= all.take(n - 1));
            let mut p: usize = 0;
            while p < out.len() && !not_after(&x, &out[p])
                invariant
                    forall|a: T, b: T| call_requires(not_after, (&a, &b)),
                    forall|a: T, b: T, c: bool| #[trigger]
                        call_ensures(not_after, (&a, &b), c) ==> c == le(view(a), view(b)),
                    p <= out@.len(),
                    forall|k: int|
                        0 <= k < p ==> !le(view(x), #[trigger] out@.map_values(view)[k]),
                decreases out@.len() - p,
            {
                p = p + 1;
            }
            let ghost shown = out@.map_values(view);
            proof {
                placed(shown, all.skip(n), view(x), p as int, le);
                assert(seq![view(x)] + all.skip(n) =~= all.skip(n - 1));
            }
            out.insert(p, x);
            assert(out@.map_values(view) =~= shown.insert(p as int, view(x)));
        }
    }
    assert(all.skip(0) =~= all);
    out
}

/// Two lists that hold the values of a third in order, with what the order
/// does not tell apart as it stood there, are the same list.
pub proof fn stable_sorting_is_unique<T>(
    a: Seq<T>,
    b: Seq<T>,
    s: Seq<T>,
    le: spec_fn(T, T) -> bool,
)
    requires
        orders(le),
        stably_sorted(a, s, le),
        stably_sorted(b, s, le),
    ensures
        a == b,
    decreases a.len(),
{
    a.to_multiset_ensures();
    b.to_multiset_ensures();
    s.to_multiset_ensures();
    same_order(a, b, le);
}

proof fn same_order<T>(a: Seq<T>, b: Seq<T>, le: spec_fn(T, T) -> bool)
    requires
        orders(le),
        in_order(a, le),
        in_order(b, le),
        a.len() == b.len(),
        forall|x: T| #[trigger] a.filter(like(x, le)) == b.filter(like(x, le)),
    ensures
        a == b,
    decreases a.len(),
{
    if a.len() > 0 {
        let x = a.last();
        let y = b.last();
        assert(le(x, x) || le(x, x));
        assert(le(y, y) || le(y, y));
        assert(like(x, le)(x));
        reveal(Seq::filter);
        let fa = a.filter(like(x, le));
        assert(fa.last() == x);
        assert(b.filter(like(x, le)).contains(x)) by {
            assert(fa[fa.len() - 1] == x);
        }
        b.lemma_filter_contains_rev(like(x, le), x);
        let k = choose|k: int| 0 <= k < b.len() && b[k] == x;
        assert(le(b[k], b[b.len() - 1]));
        let fb = b.filter(like(y, le));
        assert(fb.last() == y);
        assert(a.filter(like(y, le)).contains(y)) by {
            assert(fb[fb.len() - 1] == y);
        }
        a.lemma_filter_contains_rev(like(y, le), y);
        let m = choose|m: int| 0 <= m < a.len() && a[m] == y;
        assert(le(a[m], a[a.len() - 1]));
        assert(like(x, le)(y));
        assert(b.filter(like(x, le)).last() == y);
        assert(x == y);
        assert forall|z: T| #[trigger]
            a.drop_last().filter(like(z, le)) == b.drop_last().filter(like(z, le)) by {
            assert(a.filter(like(z, le)) == b.filter(like(z, le)));
            if like(z, le)(x) {
                assert(a.drop_last().filter(like(z, le)) =~= a.filter(like(z, le)).drop_last());
                assert(b.drop_last().filter(like(z, le)) =~= b.filter(like(z, le)).drop_last());
            }
        }
        same_order(a.drop_last(), b.drop_last(), le);
        assert(a =~= a.drop_last().push(x));
        assert(b =~= b.drop_last().push(y));
    } else {
        assert(a =~= b);
    }
}

} // verus!
