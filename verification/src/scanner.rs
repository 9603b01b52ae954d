//! The order of what a scan finds.
use vstd::prelude::*;
use vstd::string::*;

use crate::models::RepoInfo;
use crate::order;
use crate::order::{in_order, orders, stably_sorted};
use crate::paths;
use crate::paths::{path_le, path_parts, same_path};
use crate::text;
use crate::text::{lowercase, text_le, texts};

verus! {

pub open spec fn path_order() -> spec_fn(Seq<char>, Seq<char>) -> bool {
    |a: Seq<char>, b: Seq<char>| path_le(a, b)
}

proof fn path_order_orders()
    ensures
        orders(path_order()),
{
    let le = path_order();
    assert forall|a: Seq<char>, b: Seq<char>| #[trigger] le(a, b) || le(b, a) by {
        paths::parts_le_total(path_parts(a), path_parts(b));
    }
    assert forall|a: Seq<char>, b: Seq<char>, c: Seq<char>| #[trigger]
        le(a, b) && #[trigger] le(b, c) implies le(a, c) by {
        paths::parts_le_transitive(path_parts(a), path_parts(b), path_parts(c));
    }
}

/// The first of each run of paths that are the same.
pub open spec fn without_repeats(v: Seq<Seq<char>>) -> Seq<Seq<char>>
    decreases v.len(),
{
    if v.len() == 0 {
        seq![]
    } else {
        let so_far = without_repeats(v.drop_last());
        if so_far.len() > 0 && same_path(so_far.last(), v.last()) {
            so_far
        } else {
            so_far.push(v.last())
        }
    }
}

/// The paths that a scan found, in order and each once.
pub fn repo_paths(found: Vec<String>) -> (r: Vec<String>)
    ensures
        exists|sorted: Seq<Seq<char>>| #[trigger]
            stably_sorted(sorted, texts(found@), path_order()) && texts(r@) == without_repeats(
                sorted,
            ),
{
    proof {
        path_order_orders();
    }
    let not_after = |a: &String, b: &String| -> (r: bool)
        ensures
            r == path_le(a@, b@),
        { paths::not_after(a.as_str(), b.as_str()) };
    let ghost view: spec_fn(String) -> Seq<char> = |s: String| s@;
    assert(found@.map_values(view) =~= texts(found@));
    let sorted = order::stable_sort::<String, Seq<char>, _>(
        found,
        not_after,
        Ghost(view),
        Ghost(path_order()),
    );
    assert(sorted@.map_values(view) =~= texts(sorted@));
    let ghost all = texts(sorted@);
    let mut out: Vec<String> = Vec::new();
    let mut i: usize = 0;
    assert(all.take(0) =~= seq![]);
    assert(texts(out@) =~= seq![]);
    while i < sorted.len()
        invariant
            all == texts(sorted@),
            i <= sorted@.len(),
            texts(out@) == without_repeats(all.take(i as int)),
        decreases sorted@.len() - i,
    {
        assert(all.take(i + 1).drop_last() =~= all.take(i as int));
        assert(all.take(i + 1).last() == sorted@[i as int]@);
        let repeated = if out.len() > 0 {
            assert(texts(out@).last() == out@[out@.len() - 1]@);
            paths::same(out[out.len() - 1].as_str(), sorted[i].as_str())
        } else {
            false
        };
        if !repeated {
            proof {
                text::texts_push(out@, sorted@[i as int]);
            }
            out.push(sorted[i].clone());
        }
        i = i + 1;
    }
    assert(all.take(i as int) =~= all);
    out
}

/// What is found is in order, and no path is found twice.
pub proof fn no_path_twice(found: Seq<Seq<char>>, sorted: Seq<Seq<char>>)
    requires
        stably_sorted(sorted, found, path_order()),
    ensures
        in_order(without_repeats(sorted), path_order()),
        forall|i: int, j: int|
            0 <= i < j < without_repeats(sorted).len() ==> !same_path(
                #[trigger] without_repeats(sorted)[i],
                #[trigger] without_repeats(sorted)[j],
            ),
{
    path_order_orders();
    repeats_are_neighbours(sorted);
}

/// Every path that was found is among the result, itself or as another path
/// that is the same, and the result holds no others.
pub proof fn no_path_is_lost(found: Seq<Seq<char>>, sorted: Seq<Seq<char>>)
    requires
        stably_sorted(sorted, found, path_order()),
    ensures
        forall|i: int|
            0 <= i < found.len() ==> holds_path(without_repeats(sorted), #[trigger] found[i]),
        forall|i: int|
            0 <= i < without_repeats(sorted).len() ==> found.contains(
                #[trigger] without_repeats(sorted)[i],
            ),
{
    path_order_orders();
    repeats_are_neighbours(sorted);
    sorted.to_multiset_ensures();
    found.to_multiset_ensures();
    assert forall|i: int| 0 <= i < found.len() implies holds_path(
        without_repeats(sorted),
        #[trigger] found[i],
    ) by {
        assert(found.contains(found[i]));
        assert(sorted.to_multiset().count(found[i]) > 0);
        assert(sorted.contains(found[i]));
        let k = choose|k: int| 0 <= k < sorted.len() && sorted[k] == found[i];
        repeats_stand_for_each_other(sorted, k);
    }
    assert forall|i: int| 0 <= i < without_repeats(sorted).len() implies found.contains(
        #[trigger] without_repeats(sorted)[i],
    ) by {
        assert(sorted.contains(without_repeats(sorted)[i]));
        assert(found.to_multiset().count(without_repeats(sorted)[i]) > 0);
    }
}

/// A path is in a list, as itself or as another that is the same.
pub open spec fn holds_path(v: Seq<Seq<char>>, path: Seq<char>) -> bool {
    exists|j: int| 0 <= j < v.len() && same_path(#[trigger] v[j], path)
}

proof fn repeats_stand_for_each_other(v: Seq<Seq<char>>, k: int)
    requires
        0 <= k < v.len(),
    ensures
        holds_path(without_repeats(v), v[k]),
    decreases v.len(),
{
    let so_far = without_repeats(v.drop_last());
    let all = without_repeats(v);
    if k < v.len() - 1 {
        repeats_stand_for_each_other(v.drop_last(), k);
        let j = choose|j: int| 0 <= j < so_far.len() && same_path(#[trigger] so_far[j], v[k]);
        assert(all[j] == so_far[j]);
    } else {
        assert(same_path(all[all.len() - 1], v[k]));
    }
}

proof fn repeats_are_neighbours(v: Seq<Seq<char>>)
    requires
        orders(path_order()),
        in_order(v, path_order()),
    ensures
        in_order(without_repeats(v), path_order()),
        forall|i: int, j: int|
            0 <= i < j < without_repeats(v).len() ==> !same_path(
                #[trigger] without_repeats(v)[i],
                #[trigger] without_repeats(v)[j],
            ),
        v.len() > 0 ==> without_repeats(v).len() > 0 && same_path(
            without_repeats(v).last(),
            v.last(),
        ),
        forall|i: int| 0 <= i < without_repeats(v).len() ==> v.contains(
            #[trigger] without_repeats(v)[i],
        ),
    decreases v.len(),
{
    if v.len() > 0 {
        let le = path_order();
        let w = v.drop_last();
        assert(in_order(w, le)) by {
            assert forall|i: int, j: int| 0 <= i <= j < w.len() implies le(
                #[trigger] w[i],
                #[trigger] w[j],
            ) by {
                assert(le(v[i], v[j]));
            }
        }
        repeats_are_neighbours(w);
        let so_far = without_repeats(w);
        let x = v.last();
        assert forall|i: int| 0 <= i < so_far.len() implies le(#[trigger] so_far[i], x)
            && v.contains(so_far[i]) by {
            assert(w.contains(so_far[i]));
            let k = choose|k: int| 0 <= k < w.len() && w[k] == so_far[i];
            assert(v[k] == so_far[i]);
            assert(le(v[k], v[v.len() - 1]));
        }
        if !(so_far.len() > 0 && same_path(so_far.last(), x)) {
            let r = so_far.push(x);
            assert forall|i: int, j: int| 0 <= i <= j < r.len() implies le(
                #[trigger] r[i],
                #[trigger] r[j],
            ) by {
                if i < so_far.len() && j < so_far.len() {
                    assert(le(so_far[i], so_far[j]));
                } else if i < so_far.len() {
                    assert(le(so_far[i], x));
                } else {
                    assert(le(x, x) || le(x, x));
                }
            }
            assert forall|i: int, j: int| 0 <= i < j < r.len() implies !same_path(
                #[trigger] r[i],
                #[trigger] r[j],
            ) by {
                if j == so_far.len() {
                    let last = so_far[so_far.len() - 1];
                    if same_path(so_far[i], x) {
                        assert(le(so_far[i], last));
                        assert(le(last, x));
                        paths::parts_le_antisymmetric(path_parts(last), path_parts(x));
                    }
                } else {
                    assert(!same_path(so_far[i], so_far[j]));
                }
            }
            assert forall|i: int| 0 <= i < r.len() implies v.contains(#[trigger] r[i]) by {
                if i == so_far.len() {
                    assert(v[v.len() - 1] == x);
                } else {
                    assert(v.contains(so_far[i]));
                }
            }
        }
    }
}

/// A repository and the key that it is listed by.
pub struct Keyed {
    pub key: String,
    pub repo: RepoInfo,
}

impl View for Keyed {
    type V = (Seq<char>, RepoInfo);

    open spec fn view(&self) -> (Seq<char>, RepoInfo) {
        (self.key@, self.repo)
    }
}

pub open spec fn keyed_view(v: Seq<Keyed>) -> Seq<(Seq<char>, RepoInfo)> {
    v.map_values(|k: Keyed| k@)
}

pub open spec fn key_order() -> spec_fn((Seq<char>, RepoInfo), (Seq<char>, RepoInfo)) -> bool {
    |a: (Seq<char>, RepoInfo), b: (Seq<char>, RepoInfo)| text_le(a.0, b.0)
}

/// Repositories in the order of their keys.
pub fn by_key(v: Vec<Keyed>) -> (r: Vec<Keyed>)
    ensures
        stably_sorted(keyed_view(r@), keyed_view(v@), key_order()),
{
    proof {
        let le = key_order();
        assert forall|a: (Seq<char>, RepoInfo), b: (Seq<char>, RepoInfo)| #[trigger]
            le(a, b) || le(b, a) by {
            text::text_le_total(a.0, b.0);
        }
        assert forall|
            a: (Seq<char>, RepoInfo),
            b: (Seq<char>, RepoInfo),
            c: (Seq<char>, RepoInfo),
        | #[trigger] le(a, b) && #[trigger] le(b, c) implies le(a, c) by {
            text::text_le_transitive(a.0, b.0, c.0);
        }
    }
    let not_after = |a: &Keyed, b: &Keyed| -> (r: bool)
        ensures
            r == text_le(a.key@, b.key@),
        { text::not_after(a.key.as_str(), b.key.as_str()) };
    let ghost view: spec_fn(Keyed) -> (Seq<char>, RepoInfo) = |k: Keyed| k@;
    order::stable_sort::<Keyed, (Seq<char>, RepoInfo), _>(
        v,
        not_after,
        Ghost(view),
        Ghost(key_order()),
    )
}

/// A repository with the key that it is listed by: its name, whatever the
/// case of its letters.
pub open spec fn name_key() -> spec_fn(RepoInfo) -> (Seq<char>, RepoInfo) {
    |r: RepoInfo| (lowercase(r.name@), r)
}

/// Repositories in the order in which they are listed.
pub fn by_name(repos: Vec<RepoInfo>) -> (r: Vec<RepoInfo>)
    ensures
        stably_sorted(
            r@.map_values(name_key()),
            repos@.map_values(name_key()),
            key_order(),
        ),
{
    let ghost all = repos@;
    let mut keyed: Vec<Keyed> = Vec::new();
    assert(keyed_view(keyed@) =~= all.take(0).map_values(name_key()));
    for repo in it: repos.into_iter()
        invariant
            it.seq() == all,
            keyed_view(keyed@) == all.take(it.index() as int).map_values(name_key()),
    {
        let ghost k = it.index() as int;
        let ghost before = keyed_view(keyed@);
        let key = text::to_lowercase(repo.name.as_str());
        keyed.push(Keyed { key, repo });
        assert(keyed_view(keyed@) =~= before.push((lowercase(repo.name@), repo)));
        assert(all.take(k + 1).map_values(name_key()) =~= all.take(k).map_values(name_key()).push(
            name_key()(all[k]),
        ));
    }
    assert(all.take(all.len() as int) =~= all);
    let sorted = by_key(keyed);
    let ghost pairs = keyed_view(sorted@);
    proof {
        let given = all.map_values(name_key());
        given.to_multiset_ensures();
        pairs.to_multiset_ensures();
        assert forall|i: int| 0 <= i < pairs.len() implies #[trigger] pairs[i] == name_key()(
            pairs[i].1,
        ) by {
            assert(pairs.contains(pairs[i]));
            assert(given.to_multiset().count(pairs[i]) > 0);
            assert(given.contains(pairs[i]));
            let j = choose|j: int| 0 <= j < given.len() && given[j] == pairs[i];
            assert(given[j] == name_key()(all[j]));
        }
    }
    let mut out: Vec<RepoInfo> = Vec::new();
    let ghost listed = sorted@;
    assert(out@.map_values(name_key()) =~= pairs.take(0));
    for k in it: sorted.into_iter()
        invariant
            it.seq() == listed,
            pairs == keyed_view(listed),
            forall|i: int|
                0 <= i < pairs.len() ==> #[trigger] pairs[i] == name_key()(pairs[i].1),
            out@.map_values(name_key()) == pairs.take(it.index() as int),
    {
        let ghost n = it.index() as int;
        let ghost before = out@.map_values(name_key());
        assert(pairs[n] == k@);
        let repo = k.repo;
        out.push(repo);
        assert(out@.map_values(name_key()) =~= before.push(name_key()(repo)));
        assert(pairs.take(n + 1) =~= pairs.take(n).push(pairs[n]));
    }
    assert(pairs.take(pairs.len() as int) =~= pairs);
    out
}

} // verus!
