use vstd::prelude::*;
use vstd::relations::{sorted_by, total_ordering};
use vstd::seq_lib::lemma_sorted_unique;

verus! {

/// The order "greater than or equal" on indices.
pub open spec fn descending() -> spec_fn(usize, usize) -> bool {
    |a: usize, b: usize| a >= b
}

/// `descending()` is a total order.
pub proof fn lemma_descending_is_total()
    ensures
        total_ordering(descending()),
{
}

/// Removes `s[i]` when `i` is a position of `s`; otherwise `s` is unchanged.
pub open spec fn remove_if_present<E>(s: Seq<E>, i: usize) -> Seq<E> {
    if i < s.len() { s.remove(i as int) } else { s }
}

/// The sequence left after removing, in turn, the element at each
/// position listed in `order` (positions beyond the end are skipped).
pub open spec fn remove_in_order<E>(s: Seq<E>, order: Seq<usize>) -> Seq<E>
    decreases order.len(),
{
    if order.len() == 0 {
        s
    } else {
        remove_in_order(remove_if_present(s, order[0]), order.drop_first())
    }
}

/// The elements of `s` whose positions are not in `positions`, in order.
pub open spec fn keep_unselected<E>(s: Seq<E>, positions: Set<int>) -> Seq<E>
    decreases s.len(),
{
    if s.len() == 0 {
        s
    } else {
        let rest = keep_unselected(s.drop_last(), positions);
        if positions.contains(s.len() - 1) { rest } else { rest.push(s.last()) }
    }
}

/// The positions listed in `order`.
pub open spec fn positions_of(order: Seq<usize>) -> Set<int> {
    Set::new(|p: int| exists|j: int| 0 <= j < order.len() && order[j] as int == p)
}

/// The indices of `v` in descending order.
pub fn sort_descending(v: &Vec<usize>) -> (res: Vec<usize>)
    ensures
        res@ == v@.sort_by(descending()),
{
    let mut res: Vec<usize> = Vec::new();
    assert(res@ =~= v@.take(0));
    for i in 0..v.len()
        invariant
            sorted_by(res@, descending()),
            res@.to_multiset() == v@.take(i as int).to_multiset(),
    {
        let x = v[i];
        let mut j: usize = 0;
        while j < res.len() && res[j] >= x
            invariant
                j <= res.len(),
                forall|k: int| 0 <= k < j ==> res@[k] >= x,
            decreases res.len() - j,
        {
            j = j + 1;
        }
        proof {
            if j < res.len() {
                assert(res@[j as int] < x);
                assert forall|k: int| j <= k < res.len() implies res@[k] < x by {
                    assert(descending()(res@[j as int], res@[k]) || k == j);
                }
            }
        }
        let ghost before = res@;
        res.insert(j, x);
        proof {
            broadcast use vstd::seq_lib::to_multiset_insert;
            broadcast use vstd::seq_lib::to_multiset_build;
            assert(v@.take(i + 1) =~= v@.take(i as int).push(x));
            assert(res@ == before.insert(j as int, x));
            assert forall|a: int, b: int| 0 <= a < b < res@.len()
                implies #[trigger] descending()(res@[a], res@[b]) by {
                if b < j {
                    assert(descending()(before[a], before[b]));
                } else if b == j {
                } else if a < j {
                    assert(descending()(before[a], before[b - 1]));
                } else if a == j {
                } else {
                    assert(descending()(before[a - 1], before[b - 1]));
                }
            }
        }
    }
    proof {
        assert(v@.take(v.len() as int) =~= v@);
        lemma_descending_is_total();
        v@.lemma_sort_by_ensures(descending());
        lemma_sorted_unique(res@, v@.sort_by(descending()), descending());
    }
    res
}

/// Removes from `v` the element at each position of `order` in turn,
/// skipping positions beyond the current end.
pub fn remove_positions<E>(v: &mut Vec<E>, order: &Vec<usize>)
    ensures
        final(v)@ == remove_in_order(old(v)@, order@),
{
    assert(order@.skip(0) =~= order@);
    for k in 0..order.len()
        invariant
            remove_in_order(v@, order@.skip(k as int)) == remove_in_order(old(v)@, order@),
    {
        let i = order[k];
        proof {
            assert(order@.skip(k as int).drop_first() =~= order@.skip(k + 1));
        }
        if i < v.len() {
            v.remove(i);
        }
    }
    proof {
        assert(order@.skip(order.len() as int) =~= Seq::<usize>::empty());
    }
}

/// Removing positions never adds elements.
pub proof fn lemma_remove_in_order_shrinks<E>(s: Seq<E>, order: Seq<usize>)
    ensures
        remove_in_order(s, order).len() <= s.len(),
    decreases order.len(),
{
    if order.len() > 0 {
        lemma_remove_in_order_shrinks(remove_if_present(s, order[0]), order.drop_first());
    }
}

/// Positions at or beyond the end of `s` do not change what is kept.
proof fn lemma_keep_ignores_far_positions<E>(s: Seq<E>, positions: Set<int>, k: int)
    requires
        k >= s.len(),
    ensures
        keep_unselected(s, positions.insert(k)) == keep_unselected(s, positions),
    decreases s.len(),
{
    if s.len() > 0 {
        lemma_keep_ignores_far_positions(s.drop_last(), positions, k);
    }
}

/// With no selected position inside `s`, everything is kept.
proof fn lemma_keep_all<E>(s: Seq<E>, positions: Set<int>)
    requires
        forall|p: int| positions.contains(p) ==> p >= s.len(),
    ensures
        keep_unselected(s, positions) == s,
    decreases s.len(),
{
    if s.len() > 0 {
        lemma_keep_all(s.drop_last(), positions);
        assert(s.drop_last().push(s.last()) =~= s);
    }
}

/// Removing position `k` first and then keeping the positions of `r`
/// (all below `k`) keeps what keeping the positions of `r` and `k` keeps.
proof fn lemma_keep_after_remove<E>(s: Seq<E>, r: Set<int>, k: int)
    requires
        0 <= k < s.len(),
        forall|p: int| r.contains(p) ==> p < k,
    ensures
        keep_unselected(s.remove(k), r) == keep_unselected(s, r.insert(k)),
    decreases s.len(),
{
    let n = s.len();
    if k == n - 1 {
        assert(s.remove(k) =~= s.drop_last());
        lemma_keep_ignores_far_positions(s.drop_last(), r, k);
    } else {
        let t = s.remove(k);
        assert(t.drop_last() =~= s.drop_last().remove(k));
        assert(t.last() == s.last());
        lemma_keep_after_remove(s.drop_last(), r, k);
        assert(!r.contains(n - 2));
        assert(!r.insert(k).contains(n - 1));
    }
}

/// `order` lists positions in strictly descending order.
pub open spec fn strictly_descending(order: Seq<usize>) -> bool {
    forall|a: int, b: int| 0 <= a < b < order.len() ==> order[a] > order[b]
}

/// Removing strictly descending positions one after the other keeps
/// exactly the elements at the other positions.
proof fn lemma_remove_descending<E>(s: Seq<E>, order: Seq<usize>)
    requires
        strictly_descending(order),
    ensures
        remove_in_order(s, order) == keep_unselected(s, positions_of(order)),
    decreases order.len(),
{
    if order.len() == 0 {
        lemma_keep_all(s, positions_of(order));
    } else {
        let i = order[0];
        let rest = order.drop_first();
        assert(positions_of(order) =~= positions_of(rest).insert(i as int)) by {
            assert forall|p: int| positions_of(order).contains(p)
                implies positions_of(rest).insert(i as int).contains(p) by {
                let j = choose|j: int| 0 <= j < order.len() && order[j] as int == p;
                if j > 0 {
                    assert(rest[j - 1] as int == p);
                }
            }
            assert forall|p: int| positions_of(rest).insert(i as int).contains(p)
                implies positions_of(order).contains(p) by {
                if p != i as int {
                    let j = choose|j: int| 0 <= j < rest.len() && rest[j] as int == p;
                    assert(order[j + 1] as int == p);
                } else {
                    assert(order[0] as int == p);
                }
            }
        }
        assert forall|p: int| positions_of(rest).contains(p) implies p < i as int by {
            let j = choose|j: int| 0 <= j < rest.len() && rest[j] as int == p;
            assert(order[j + 1] < order[0]);
        }
        lemma_remove_descending(remove_if_present(s, i), rest);
        if (i as int) < s.len() {
            lemma_keep_after_remove(s, positions_of(rest), i as int);
        } else {
            lemma_keep_ignores_far_positions(s, positions_of(rest), i as int);
        }
    }
}

/// When no index is selected twice, deleting the selection (in descending
/// order of indices) keeps exactly the elements at the unselected
/// positions, in their original order; selected indices beyond the end
/// are ignored.
pub proof fn lemma_delete_keeps_unselected<E>(s: Seq<E>, selected: Seq<usize>)
    requires
        selected.no_duplicates(),
    ensures
        remove_in_order(s, selected.sort_by(descending()))
            == keep_unselected(s, positions_of(selected)),
{
    broadcast use vstd::seq_lib::group_to_multiset_ensures;
    let order = selected.sort_by(descending());
    lemma_descending_is_total();
    selected.lemma_sort_by_ensures(descending());
    selected.lemma_multiset_has_no_duplicates();
    order.lemma_multiset_has_no_duplicates_conv();
    assert forall|a: int, b: int| 0 <= a < b < order.len() implies order[a] > order[b] by {
        assert(descending()(order[a], order[b]));
        assert(order[a] != order[b]);
    }
    assert(positions_of(order) =~= positions_of(selected)) by {
        assert forall|p: int| positions_of(order).contains(p)
            implies positions_of(selected).contains(p) by {
            let j = choose|j: int| 0 <= j < order.len() && order[j] as int == p;
            assert(order.contains(order[j]));
            assert(order.to_multiset().count(order[j]) > 0);
            assert(selected.contains(order[j]));
        }
        assert forall|p: int| positions_of(selected).contains(p)
            implies positions_of(order).contains(p) by {
            let j = choose|j: int| 0 <= j < selected.len() && selected[j] as int == p;
            assert(selected.contains(selected[j]));
            assert(selected.to_multiset().count(selected[j]) > 0);
            assert(order.contains(selected[j]));
            let k = choose|k: int| 0 <= k < order.len() && order[k] == selected[j];
            assert(order[k] as int == p);
        }
    }
    lemma_remove_descending(s, order);
}

} // verus!
