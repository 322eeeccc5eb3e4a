//! Which rows of a list stay, by the tags of their entities, and at which
//! positions.
//!
//! An entity stays where it has every tag that is asked for and none that
//! is refused. The store gives, for each tag, the keys of the entities that
//! have it; what is asked of all tags at once is computed here.

use crate::models::Row;
use std::collections::HashSet;
use vstd::prelude::*;

verus! {

/// The keys that stand in every one of `sets`; none where there is no set.
pub open spec fn common(sets: Seq<Seq<i32>>) -> Set<i32> {
    Set::new(
        |id: i32| sets.len() > 0 && forall|i: int| 0 <= i < sets.len() ==> (#[trigger] sets[i]).contains(id),
    )
}

/// The keys that stand in one of `sets` at least.
pub open spec fn any(sets: Seq<Seq<i32>>) -> Set<i32> {
    Set::new(|id: i32| exists|i: int| 0 <= i < sets.len() && (#[trigger] sets[i]).contains(id))
}

/// Whether the entity with the key `id` stays: it is among `wanted`, or
/// `wanted` is empty, and it is not among `unwanted`.
pub open spec fn stays(id: i32, wanted: Set<i32>, unwanted: Set<i32>) -> bool {
    (wanted.is_empty() || wanted.contains(id)) && !unwanted.contains(id)
}

/// The indices of the rows that stay, in their order.
pub open spec fn kept<R: Row>(rows: Seq<R>, wanted: Set<i32>, unwanted: Set<i32>) -> Seq<int>
    decreases rows.len(),
{
    if rows.len() == 0 {
        Seq::empty()
    } else if stays(rows.last().key(), wanted, unwanted) {
        kept(rows.drop_last(), wanted, unwanted).push(rows.len() - 1)
    } else {
        kept(rows.drop_last(), wanted, unwanted)
    }
}

/// The rows that stay, in their order, each at its new position: the first
/// at 1, the next at 2, and so on.
pub open spec fn numbered<R: Row>(rows: Seq<R>, wanted: Set<i32>, unwanted: Set<i32>) -> Seq<R> {
    let indices = kept(rows, wanted, unwanted);
    Seq::new(indices.len(), |i: int| rows[indices[i]].at((i + 1) as i32))
}

/// The indices of the rows that stay are those of the rows that `stays`
/// admits, each once and in rising order.
pub proof fn lemma_kept<R: Row>(rows: Seq<R>, wanted: Set<i32>, unwanted: Set<i32>)
    ensures
        kept(rows, wanted, unwanted).len() <= rows.len(),
        forall|i: int|
            0 <= i < kept(rows, wanted, unwanted).len() ==> {
                let k = #[trigger] kept(rows, wanted, unwanted)[i];
                0 <= k < rows.len() && stays(rows[k].key(), wanted, unwanted)
            },
        forall|i: int, j: int|
            0 <= i < j < kept(rows, wanted, unwanted).len() ==> kept(rows, wanted, unwanted)[i]
                < kept(rows, wanted, unwanted)[j],
        forall|k: int|
            0 <= k < rows.len() && stays(#[trigger] rows[k].key(), wanted, unwanted) ==> kept(
                rows,
                wanted,
                unwanted,
            ).contains(k),
    decreases rows.len(),
{
    if rows.len() > 0 {
        let front = rows.drop_last();
        let before = kept(front, wanted, unwanted);
        let all = kept(rows, wanted, unwanted);
        lemma_kept(front, wanted, unwanted);
        assert forall|k: int|
            0 <= k < rows.len() && stays(#[trigger] rows[k].key(), wanted, unwanted) implies all.contains(
            k,
        ) by {
            if k < rows.len() - 1 {
                assert(front[k] == rows[k]);
                assert(before.contains(k));
                let i = choose|i: int| 0 <= i < before.len() && before[i] == k;
                assert(all[i] == k);
            } else {
                assert(all[all.len() - 1] == k);
            }
        }
        assert forall|i: int| 0 <= i < all.len() implies {
            let k = #[trigger] all[i];
            0 <= k < rows.len() && stays(rows[k].key(), wanted, unwanted)
        } by {
            if i < before.len() {
                assert(all[i] == before[i]);
                assert(front[before[i]] == rows[before[i]]);
            }
        }
        assert forall|i: int, j: int| 0 <= i < j < all.len() implies all[i] < all[j] by {
            assert(all[i] == before[i]);
            if j < before.len() {
                assert(all[j] == before[j]);
            }
        }
    }
}

/// The first `j + 1` keys of a list hold what the first `j` hold, and the
/// key at index `j`.
proof fn lemma_one_more(keys: Seq<i32>, j: int)
    requires
        0 <= j < keys.len(),
    ensures
        forall|x: i32|
            keys.take(j + 1).contains(x) <==> (keys.take(j).contains(x) || x == keys[j]),
{
    let seen = keys.take(j);
    let next = keys.take(j + 1);
    assert forall|x: i32| next.contains(x) <==> (seen.contains(x) || x == keys[j]) by {
        if seen.contains(x) {
            let k = choose|k: int| 0 <= k < seen.len() && seen[k] == x;
            assert(next[k] == x);
        }
        if x == keys[j] {
            assert(next[j] == x);
        }
        if next.contains(x) {
            let k = choose|k: int| 0 <= k < next.len() && next[k] == x;
            if k < j {
                assert(seen[k] == x);
            }
        }
    }
}

/// Whether `id` stands in `v`.
fn holds(v: &Vec<i32>, id: i32) -> (r: bool)
    ensures
        r == v@.contains(id),
{
    let n: usize = v.len();
    let mut i: usize = 0;
    while i < n
        invariant
            n == v.len(),
            i <= n,
            forall|j: int| 0 <= j < i ==> v@[j] != id,
        decreases n - i,
    {
        if v[i] == id {
            return true;
        }
        i = i + 1;
    }
    false
}

/// Whether `id` stands in every one of `sets`.
fn holds_in_all(sets: &Vec<Vec<i32>>, id: i32) -> (r: bool)
    ensures
        r == forall|i: int| 0 <= i < sets.len() ==> (#[trigger] sets.deep_view()[i]).contains(id),
{
    let n: usize = sets.len();
    let ghost all = sets.deep_view();
    let mut i: usize = 0;
    while i < n
        invariant
            n == sets.len(),
            all == sets.deep_view(),
            i <= n,
            forall|j: int| 0 <= j < i ==> (#[trigger] all[j]).contains(id),
        decreases n - i,
    {
        assert(all[i as int] =~= sets@[i as int]@);
        if !holds(&sets[i], id) {
            return false;
        }
        i = i + 1;
    }
    true
}

/// The keys that stand in every one of `sets`.
fn keys_in_all(sets: &Vec<Vec<i32>>) -> (r: HashSet<i32>)
    ensures
        r@ == common(sets.deep_view()),
{
    let mut r: HashSet<i32> = HashSet::new();
    let ghost all = sets.deep_view();
    if sets.len() == 0 {
        assert(r@ =~= common(all));
        return r;
    }
    let first: &Vec<i32> = &sets[0];
    assert(all[0] =~= first@);
    let n: usize = first.len();
    let mut j: usize = 0;
    while j < n
        invariant
            n == first.len(),
            j <= n,
            all == sets.deep_view(),
            all.len() > 0,
            all[0] == first@,
            forall|id: i32|
                r@.contains(id) <==> (first@.take(j as int).contains(id) && common(all).contains(
                    id,
                )),
        decreases n - j,
    {
        let id: i32 = first[j];
        proof {
            lemma_one_more(first@, j as int);
        }
        if holds_in_all(sets, id) {
            let _ = r.insert(id);
        }
        j = j + 1;
    }
    assert(first@.take(n as int) =~= first@);
    assert(r@ =~= common(all));
    r
}

/// The keys that stand in one of `sets` at least.
fn keys_in_any(sets: &Vec<Vec<i32>>) -> (r: HashSet<i32>)
    ensures
        r@ == any(sets.deep_view()),
{
    let mut r: HashSet<i32> = HashSet::new();
    let ghost all = sets.deep_view();
    let n: usize = sets.len();
    let mut i: usize = 0;
    assert(all.take(0) =~= Seq::<Seq<i32>>::empty());
    assert(r@ =~= any(all.take(0)));
    while i < n
        invariant
            n == sets.len(),
            all == sets.deep_view(),
            i <= n,
            r@ == any(all.take(i as int)),
        decreases n - i,
    {
        let set: &Vec<i32> = &sets[i];
        assert(all[i as int] =~= set@);
        let m: usize = set.len();
        let ghost done = all.take(i as int);
        let mut j: usize = 0;
        while j < m
            invariant
                m == set.len(),
                j <= m,
                forall|id: i32|
                    r@.contains(id) <==> (any(done).contains(id) || set@.take(j as int).contains(id)),
            decreases m - j,
        {
            let id: i32 = set[j];
            proof {
                lemma_one_more(set@, j as int);
            }
            let _ = r.insert(id);
            j = j + 1;
        }
        proof {
            assert(set@.take(m as int) =~= set@);
            let grown = all.take(i + 1);
            assert forall|id: i32| any(grown).contains(id) <==> (any(done).contains(id)
                || set@.contains(id)) by {
                if any(done).contains(id) {
                    let k = choose|k: int| 0 <= k < done.len() && (#[trigger] done[k]).contains(id);
                    assert(grown[k] == done[k]);
                }
                if set@.contains(id) {
                    assert(grown[i as int] == set@);
                }
                if any(grown).contains(id) {
                    let k = choose|k: int| 0 <= k < grown.len() && (#[trigger] grown[k]).contains(id);
                    if k < i {
                        assert(done[k] == grown[k]);
                    }
                }
            }
            assert(r@ =~= any(grown));
        }
        i = i + 1;
    }
    assert(all.take(n as int) =~= all);
    r
}

/// The keys to keep and the keys to drop. `wanted` holds, for each tag that
/// is asked for, the keys of the entities that have it; `unwanted` the same
/// for each tag that is refused. The keys to keep are those in every list of
/// `wanted`; the keys to drop those in any list of `unwanted`.
pub fn get_included_excluded(wanted: &Vec<Vec<i32>>, unwanted: &Vec<Vec<i32>>) -> (r: (
    HashSet<i32>,
    HashSet<i32>,
))
    ensures
        r.0@ == common(wanted.deep_view()),
        r.1@ == any(unwanted.deep_view()),
{
    (keys_in_all(wanted), keys_in_any(unwanted))
}

/// Whether the entity with the key `id` stays.
pub fn survives(id: i32, wanted: &HashSet<i32>, unwanted: &HashSet<i32>) -> (r: bool)
    ensures
        r == stays(id, wanted@, unwanted@),
{
    (wanted.is_empty() || wanted.contains(&id)) && !unwanted.contains(&id)
}

/// The rows that stay, in their order, each at its new position. The
/// positions count the rows that stay: they do not depend on the keys.
pub fn renumber<R: Row>(rows: Vec<R>, wanted: &HashSet<i32>, unwanted: &HashSet<i32>) -> (r: Vec<R>)
    requires
        rows.len() < i32::MAX,
    ensures
        r@ == numbered(rows@, wanted@, unwanted@),
        forall|i: int| 0 <= i < r.len() ==> (#[trigger] r@[i]).position() == i + 1,
{
    let ghost all = rows@;
    let mut r: Vec<R> = Vec::new();
    let mut num: i32 = 1;
    proof {
        assert(all.take(0) =~= Seq::<R>::empty());
        assert(r@ =~= numbered(all.take(0), wanted@, unwanted@));
    }
    for row in it: rows
        invariant
            it.seq() == all,
            all.len() < i32::MAX,
            r@ == numbered(all.take(it.index() as int), wanted@, unwanted@),
            num == r.len() + 1,
            r.len() <= it.index(),
    {
        proof {
            let i = it.index() as int;
            let front = all.take(i);
            let grown = all.take(i + 1);
            assert(grown.drop_last() =~= front);
            assert(grown.last() == row);
            lemma_kept(front, wanted@, unwanted@);
            if stays(row.key(), wanted@, unwanted@) {
                assert(numbered(grown, wanted@, unwanted@) =~= numbered(
                    front,
                    wanted@,
                    unwanted@,
                ).push(row.at(num)));
            } else {
                assert(numbered(grown, wanted@, unwanted@) =~= numbered(front, wanted@, unwanted@));
            }
        }
        if survives(row.store_key(), wanted, unwanted) {
            r.push(row.place(num));
            num = num + 1;
        }
    }
    proof {
        assert(all.take(all.len() as int) =~= all);
        lemma_kept(all, wanted@, unwanted@);
        assert forall|i: int| 0 <= i < r.len() implies (#[trigger] r@[i]).position() == i + 1 by {
            all[kept(all, wanted@, unwanted@)[i]].lemma_at((i + 1) as i32);
        }
    }
    r
}

} // verus!
