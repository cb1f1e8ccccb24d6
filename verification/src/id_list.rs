//! Ordered lists of string ids: lookup by first occurrence, removal of every
//! occurrence, and the drag-and-drop reorder used by sidebar shelves.

use vstd::prelude::*;

use crate::text::str_eq;

verus! {

broadcast use vstd::seq_lib::group_seq_properties;

/// The character views of a list of strings.
pub open spec fn views(v: Seq<String>) -> Seq<Seq<char>> {
    v.map_values(|s: String| s@)
}

/// The first index at or after `i` where `s` holds `x`.
pub open spec fn first_index_from(s: Seq<Seq<char>>, x: Seq<char>, i: int) -> Option<int>
    decreases s.len() - i,
{
    if 0 <= i < s.len() {
        if s[i] == x {
            Some(i)
        } else {
            first_index_from(s, x, i + 1)
        }
    } else {
        None
    }
}

/// The first index where `s` holds `x` (`iter().position`).
pub open spec fn first_index(s: Seq<Seq<char>>, x: Seq<char>) -> Option<int> {
    first_index_from(s, x, 0)
}

/// `s` with every occurrence of `x` removed (`retain(|id| id != x)`).
pub open spec fn without(s: Seq<Seq<char>>, x: Seq<char>) -> Seq<Seq<char>>
    decreases s.len(),
{
    if s.len() == 0 {
        s
    } else {
        let rest = without(s.drop_last(), x);
        if s.last() == x {
            rest
        } else {
            rest.push(s.last())
        }
    }
}

/// `s` with the element at `from` taken out and put back at index `to`.
pub open spec fn move_entry<A>(s: Seq<A>, from: int, to: int) -> Seq<A> {
    s.remove(from).insert(to, s[from])
}

/// Drag-and-drop reorder: `dragged` is taken out of `s` and put back just
/// before `target` (or just after it when `insert_after`), measured in the
/// list without the dragged entry and capped at its end. Nothing changes when
/// the two ids are equal or either one is missing.
pub open spec fn reorder(s: Seq<Seq<char>>, dragged: Seq<char>, target: Seq<char>, insert_after: bool) -> Seq<Seq<char>> {
    if dragged == target {
        s
    } else {
        match (first_index(s, dragged), first_index(s, target)) {
            (Some(from), Some(to)) => {
                let base = if insert_after {
                    to + 1
                } else {
                    to
                };
                let shifted = if from < base {
                    base - 1
                } else {
                    base
                };
                let at = if shifted < s.len() - 1 {
                    shifted
                } else {
                    s.len() - 1
                };
                move_entry(s, from, at)
            },
            _ => s,
        }
    }
}

/// What `first_index_from` returns: the first match at or after `i`, or none.
pub proof fn lemma_first_index_from(s: Seq<Seq<char>>, x: Seq<char>, i: int)
    requires
        0 <= i,
    ensures
        match first_index_from(s, x, i) {
            Some(k) => i <= k < s.len() && s[k] == x && forall|j: int| i <= j < k ==> s[j] != x,
            None => forall|j: int| i <= j < s.len() ==> s[j] != x,
        },
    decreases s.len() - i,
{
    if 0 <= i < s.len() && s[i] != x {
        lemma_first_index_from(s, x, i + 1);
    }
}

/// What `first_index` returns: the first match, or none when `x` is absent.
pub proof fn lemma_first_index(s: Seq<Seq<char>>, x: Seq<char>)
    ensures
        match first_index(s, x) {
            Some(k) => 0 <= k < s.len() && s[k] == x && forall|j: int| 0 <= j < k ==> s[j] != x,
            None => !s.contains(x),
        },
{
    lemma_first_index_from(s, x, 0);
}

/// An id stays in a list after removing every occurrence of another id, and
/// the removed id is gone.
pub proof fn lemma_without_contains(s: Seq<Seq<char>>, x: Seq<char>, y: Seq<char>)
    ensures
        without(s, x).contains(y) <==> (s.contains(y) && y != x),
    decreases s.len(),
{
    if s.len() > 0 {
        let rest = s.drop_last();
        lemma_without_contains(rest, x, y);
        if s.contains(y) && y != x {
            let k = choose|k: int| 0 <= k < s.len() && s[k] == y;
            if k < s.len() - 1 {
                assert(rest[k] == y);
            }
        }
        if without(s, x).contains(y) && s.last() != x {
            let w = without(rest, x);
            let k = choose|k: int| 0 <= k < without(s, x).len() && without(s, x)[k] == y;
            if k < w.len() {
                assert(w[k] == y);
            }
        }
        if rest.contains(y) {
            let k = choose|k: int| 0 <= k < rest.len() && rest[k] == y;
            assert(s[k] == y);
        }
    }
}

/// Moving one entry to another position keeps the same entries, each as
/// often as before.
pub proof fn lemma_move_entry_permutes<A>(s: Seq<A>, from: int, to: int)
    requires
        0 <= from < s.len(),
        0 <= to < s.len(),
    ensures
        move_entry(s, from, to).to_multiset() == s.to_multiset(),
        move_entry(s, from, to).len() == s.len(),
        move_entry(s, from, to)[to] == s[from],
{
    let rest = s.remove(from);
    let moved = rest.insert(to, s[from]);
    assert(moved.remove(to) =~= rest);
    assert(moved[to] == s[from]);
    assert(moved.to_multiset().remove(s[from]) == rest.to_multiset());
    assert(rest.to_multiset() == s.to_multiset().remove(s[from]));
    assert(moved.to_multiset().count(s[from]) > 0) by {
        assert(moved.contains(s[from]));
    }
    assert(s.to_multiset().count(s[from]) > 0) by {
        assert(s.contains(s[from]));
    }
    assert(moved.to_multiset() =~= s.to_multiset());
}


/// Whether `a` sits at index `k` of `s` with `b` right after it.
pub open spec fn adjacent_at<A>(s: Seq<A>, k: int, a: A, b: A) -> bool {
    0 <= k && k + 1 < s.len() && s[k] == a && s[k + 1] == b
}

/// A drag-and-drop reorder keeps the same ids, and leaves the dragged id
/// right before the target (right after it when `insert_after`).
pub proof fn law_reorder_places_dragged_next_to_target(
    s: Seq<Seq<char>>,
    dragged: Seq<char>,
    target: Seq<char>,
    insert_after: bool,
)
    requires
        dragged != target,
        s.contains(dragged),
        s.contains(target),
    ensures
        reorder(s, dragged, target, insert_after).to_multiset() == s.to_multiset(),
        if insert_after {
            exists|k: int| #[trigger] adjacent_at(reorder(s, dragged, target, insert_after), k, target, dragged)
        } else {
            exists|k: int| #[trigger] adjacent_at(reorder(s, dragged, target, insert_after), k, dragged, target)
        },
{
    lemma_first_index(s, dragged);
    lemma_first_index(s, target);
    let f = first_index(s, dragged)->0;
    let tg = first_index(s, target)->0;
    assert(f != tg);
    let base = if insert_after {
        tg + 1
    } else {
        tg
    };
    let shifted = if f < base {
        base - 1
    } else {
        base
    };
    let at = if shifted < s.len() - 1 {
        shifted
    } else {
        s.len() - 1
    };
    let r = reorder(s, dragged, target, insert_after);
    let rem = s.remove(f);
    assert(r == rem.insert(at, dragged));
    lemma_move_entry_permutes(s, f, at);
    if insert_after {
        if f < tg {
            assert(at == tg);
            assert(rem[tg - 1] == target);
            assert(adjacent_at(r, tg - 1, target, dragged));
        } else {
            assert(at == tg + 1);
            assert(rem[tg] == target);
            assert(adjacent_at(r, tg, target, dragged));
        }
    } else {
        if f < tg {
            assert(at == tg - 1);
            assert(rem[tg - 1] == target);
            assert(adjacent_at(r, tg - 1, dragged, target));
        } else {
            assert(at == tg);
            assert(rem[tg] == target);
            assert(adjacent_at(r, tg, dragged, target));
        }
    }
}


/// A reorder never loses or duplicates an id, whatever its arguments.
pub proof fn lemma_reorder_permutes(s: Seq<Seq<char>>, dragged: Seq<char>, target: Seq<char>, insert_after: bool)
    ensures
        reorder(s, dragged, target, insert_after).to_multiset() == s.to_multiset(),
{
    if dragged != target && s.contains(dragged) && s.contains(target) {
        law_reorder_places_dragged_next_to_target(s, dragged, target, insert_after);
    } else {
        lemma_first_index(s, dragged);
        lemma_first_index(s, target);
    }
}

/// The first position of `id` in `v` (`v.iter().position(|s| s == id)`).
pub fn position(v: &Vec<String>, id: &str) -> (r: Option<usize>)
    ensures
        match r {
            Some(k) => first_index(views(v@), id@) == Some(k as int),
            None => first_index(views(v@), id@) is None,
        },
{
    let mut i: usize = 0;
    while i < v.len()
        invariant
            i <= v.len(),
            first_index(views(v@), id@) == first_index_from(views(v@), id@, i as int),
        decreases v.len() - i,
    {
        if str_eq(v[i].as_str(), id) {
            return Some(i);
        }
        i = i + 1;
    }
    None
}

/// Whether `v` holds `id`.
pub fn contains_id(v: &Vec<String>, id: &str) -> (r: bool)
    ensures
        r == views(v@).contains(id@),
{
    let p = position(v, id);
    proof {
        lemma_first_index(views(v@), id@);
    }
    p.is_some()
}

/// Removes every occurrence of `id` from `v`, keeping the order of the rest.
pub fn retain_other(v: &mut Vec<String>, id: &str)
    ensures
        views(final(v)@) == without(views(old(v)@), id@),
{
    let mut kept: Vec<String> = Vec::new();
    let mut i: usize = 0;
    while i < v.len()
        invariant
            i <= v.len(),
            views(kept@) == without(views(v@).take(i as int), id@),
        decreases v.len() - i,
    {
        proof {
            assert(views(v@).take(i + 1).drop_last() =~= views(v@).take(i as int));
        }
        if !str_eq(v[i].as_str(), id) {
            kept.push(v[i].clone());
            proof {
                assert(views(kept@) =~= without(views(v@).take(i + 1), id@));
            }
        }
        i = i + 1;
    }
    proof {
        assert(views(v@).take(i as int) =~= views(v@));
    }
    *v = kept;
}

/// Appends `id` unless `v` already holds it.
pub fn push_unique(v: &mut Vec<String>, id: &str)
    ensures
        views(final(v)@) == if views(old(v)@).contains(id@) {
            views(old(v)@)
        } else {
            views(old(v)@).push(id@)
        },
{
    if !contains_id(v, id) {
        v.push(id.to_owned());
        proof {
            assert(views(v@) =~= views(old(v)@).push(id@));
        }
    }
}

/// Moves the entry at `from` to index `to`.
pub fn move_within(v: &mut Vec<String>, from: usize, to: usize)
    requires
        from < old(v).len(),
        to < old(v).len(),
    ensures
        views(final(v)@) == move_entry(views(old(v)@), from as int, to as int),
        final(v).len() == old(v).len(),
{
    let id = v.remove(from);
    v.insert(to, id);
    proof {
        let s = views(old(v)@);
        assert(views(v@) =~= move_entry(s, from as int, to as int));
    }
}

/// Moves `dragged` next to `target` as [`reorder`] describes.
pub fn reorder_ids(order: &mut Vec<String>, dragged_id: &str, target_id: &str, insert_after: bool)
    ensures
        views(final(order)@) == reorder(views(old(order)@), dragged_id@, target_id@, insert_after),
{
    if str_eq(dragged_id, target_id) {
        return;
    }
    let from_pos = position(order, dragged_id);
    let target_pos = position(order, target_id);
    match (from_pos, target_pos) {
        (Some(from), Some(target)) => {
            proof {
                lemma_first_index(views(order@), dragged_id@);
                lemma_first_index(views(order@), target_id@);
                assert(views(order@).len() == order@.len());
                assert(first_index(views(order@), target_id@) == Some(target as int));
                assert(target < order.len());
            }
            let mut insert_at = target;
            if insert_after {
                insert_at = insert_at + 1;
            }
            if from < insert_at {
                insert_at = insert_at - 1;
            }
            if insert_at > order.len() - 1 {
                insert_at = order.len() - 1;
            }
            move_within(order, from, insert_at);
        },
        _ => {},
    }
}

} // verus!
