//! Properties of the sidebar that hold across operations: where an atom is
//! listed after it moves between shelves, what archiving hides, what a rename
//! shows, and how drafts, selection and reveals behave.

use vstd::prelude::*;

use super::demo_data::{AtomShelf, DemoAtom, DRAFT_ID};
use super::state::{
    atom_by_id, clamp, id_span, moved_by, page_up, row_ids, title_views, toggle_one,
    SidebarViewModel, SETTLED_PAGE_SIZE,
};
use crate::id_list::{
    first_index, lemma_first_index, lemma_move_entry_permutes, lemma_reorder_permutes,
    lemma_without_contains, views, without,
};
use crate::text::{contains_folded, folded_match_at, is_blank, trim};

verus! {

broadcast use vstd::seq_lib::group_seq_properties;

/// An element is kept by `filter_map` exactly when some entry maps to it.
pub proof fn lemma_filter_map_contains<A, B>(s: Seq<A>, f: spec_fn(A) -> Option<B>, y: B)
    ensures
        s.filter_map(f).contains(y) <==> exists|i: int| 0 <= i < s.len() && f(s[i]) == Some(y),
    decreases s.len(),
{
    if s.len() > 0 {
        let rest = s.drop_last();
        lemma_filter_map_contains(rest, f, y);
        let r = rest.filter_map(f);
        let fm = s.filter_map(f);
        if fm.contains(y) {
            let k = choose|k: int| 0 <= k < fm.len() && fm[k] == y;
            if k < r.len() {
                assert(r[k] == y);
                let i = choose|i: int| 0 <= i < rest.len() && f(rest[i]) == Some(y);
                assert(f(s[i]) == Some(y));
            } else {
                assert(f(s[s.len() - 1]) == Some(y));
            }
        }
        if exists|i: int| 0 <= i < s.len() && f(s[i]) == Some(y) {
            let i = choose|i: int| 0 <= i < s.len() && f(s[i]) == Some(y);
            if i < s.len() - 1 {
                assert(f(rest[i]) == Some(y));
                let k = choose|k: int| 0 <= k < r.len() && r[k] == y;
                assert(fm[k] == y);
            } else {
                assert(fm[fm.len() - 1] == y);
            }
        }
    }
}

/// Archived atoms never show on the pinned, active or settled shelves, nor
/// among search results.
pub proof fn law_archived_atoms_are_hidden(s: SidebarViewModel, a: DemoAtom)
    requires
        s.archived(a),
    ensures
        !s.pinned_rows().contains(a),
        !s.active_rows().contains(a),
        !s.settled_rows().contains(a),
        !s.visible_rows().contains(a),
        !s.search_rows().contains(a),
{
    lemma_filter_map_contains(
        s.pinned_order@,
        |id: String| s.shelf_row(id, AtomShelf::Pinned),
        a,
    );
    lemma_filter_map_contains(
        s.active_order@,
        |id: String| s.shelf_row(id, AtomShelf::Active),
        a,
    );
    lemma_filter_map_contains(
        s.settled_order@,
        |id: String| s.shelf_row(id, AtomShelf::Settled),
        a,
    );
    lemma_filter_map_contains(s.atoms@, |x: DemoAtom| s.search_hit(x), a);
}

/// An order list whose views hold `id` has an entry with that view.
proof fn lemma_view_entry(order: Seq<String>, id: Seq<char>) -> (i: int)
    requires
        views(order).contains(id),
    ensures
        0 <= i < order.len(),
        order[i]@ == id,
{
    let i = choose|i: int| 0 <= i < views(order).len() && views(order)[i] == id;
    i
}

/// After an atom is put on a shelf, that shelf's order holds it and no other
/// shelf's order or the archive does; its shelf is the new one; and, when it
/// is a known, unarchived atom in scope and no search runs, it is listed on
/// that shelf and on no other.
pub proof fn law_placed_atom_lists_on_its_shelf(
    s: SidebarViewModel,
    t: SidebarViewModel,
    a: DemoAtom,
    shelf: AtomShelf,
)
    requires
        s.placed_on_shelf(t, a.id@, shelf),
    ensures
        views(t.order_of(shelf)@).contains(a.id@),
        forall|sh: AtomShelf| sh != shelf ==> !views(#[trigger] t.order_of(sh)@).contains(a.id@),
        !views(t.archived_order@).contains(a.id@),
        t.shelf_of(a) == shelf,
        (atom_by_id(t.atoms@, a.id@) == Some(a) && !t.archived(a) && t.in_scope(a)
            && !t.searching()) ==> t.shelf_rows(t.order_of(shelf)@, shelf).contains(a),
        forall|sh: AtomShelf|
            sh != shelf ==> !(#[trigger] t.shelf_rows(t.order_of(sh)@, sh)).contains(a),
{
    let id = a.id@;
    lemma_without_contains(views(s.pinned_order@), id, id);
    lemma_without_contains(views(s.active_order@), id, id);
    lemma_without_contains(views(s.settled_order@), id, id);
    lemma_without_contains(views(s.archived_order@), id, id);
    assert(views(t.order_of(shelf)@).last() == id);
    assert forall|sh: AtomShelf| sh != shelf implies !(#[trigger] t.shelf_rows(
        t.order_of(sh)@,
        sh,
    )).contains(a) by {
        lemma_filter_map_contains(t.order_of(sh)@, |x: String| t.shelf_row(x, sh), a);
    }
    if atom_by_id(t.atoms@, id) == Some(a) && !t.archived(a) && t.in_scope(a) && !t.searching() {
        let order = t.order_of(shelf)@;
        let last = order.len() - 1;
        assert(views(order)[last] == id);
        assert(order[last]@ == id);
        assert(t.shelf_row(order[last], shelf) == Some(a));
        lemma_filter_map_contains(order, |x: String| t.shelf_row(x, shelf), a);
    }
}

/// Pinning then unpinning an atom leaves it on the active list and off the
/// pinned one.
pub proof fn law_pin_then_unpin_returns_to_active(
    s: SidebarViewModel,
    t: SidebarViewModel,
    u: SidebarViewModel,
    id: Seq<char>,
)
    requires
        s.placed_on_shelf(t, id, AtomShelf::Pinned),
        t.placed_on_shelf(u, id, AtomShelf::Active),
    ensures
        views(u.active_order@).contains(id),
        !views(u.pinned_order@).contains(id),
        !views(u.settled_order@).contains(id),
        u.atom_shelf_overrides@[id] == AtomShelf::Active,
{
    lemma_without_contains(views(t.pinned_order@), id, id);
    lemma_without_contains(views(t.active_order@), id, id);
    lemma_without_contains(views(t.settled_order@), id, id);
    assert(views(u.active_order@).last() == id);
}

/// Archiving an atom takes it off every shelf order and into the archive
/// order; it is no longer selected, renamed or active; and a known atom in
/// scope is listed on the archived shelf while no search runs.
pub proof fn law_archive_moves_atom_to_archive(s: SidebarViewModel, t: SidebarViewModel, a: DemoAtom)
    requires
        s.archived_to(t, a.id@),
        a.id@ != DRAFT_ID@,
    ensures
        t.archived(a),
        forall|sh: AtomShelf| !views(#[trigger] t.order_of(sh)@).contains(a.id@),
        views(t.archived_order@).contains(a.id@),
        !t.selected_atom_ids@.contains(a.id@),
        !(t.renaming_atom_id matches Some(r) && r@ == a.id@),
        t.active_atom_id@ != a.id@,
        (atom_by_id(t.atoms@, a.id@) == Some(a) && t.in_scope(a) && !t.searching())
            ==> t.archived_rows().contains(a),
{
    let id = a.id@;
    lemma_without_contains(views(s.pinned_order@), id, id);
    lemma_without_contains(views(s.active_order@), id, id);
    lemma_without_contains(views(s.settled_order@), id, id);
    assert(views(t.archived_order@).last() == id);
    if atom_by_id(t.atoms@, id) == Some(a) && t.in_scope(a) && !t.searching() {
        let order = t.archived_order@;
        let last = order.len() - 1;
        assert(views(order)[last] == id);
        assert(t.archived_row(order[last]) == Some(a));
        lemma_filter_map_contains(order, |x: String| t.archived_row(x), a);
    }
}

/// Unarchiving an atom takes it out of the archive; an atom that belongs on
/// the active shelf, known and in scope, is listed there again while no
/// search runs.
pub proof fn law_unarchive_restores_active_atom(s: SidebarViewModel, t: SidebarViewModel, a: DemoAtom)
    requires
        s.unarchived_to(t, a.id@),
    ensures
        !t.archived(a),
        !views(t.archived_order@).contains(a.id@),
        views(t.active_order@).contains(a.id@),
        (atom_by_id(t.atoms@, a.id@) == Some(a) && t.shelf_of(a) == AtomShelf::Active && t.in_scope(
            a,
        ) && !t.searching()) ==> t.active_rows().contains(a),
{
    let id = a.id@;
    lemma_without_contains(views(s.archived_order@), id, id);
    if !views(s.active_order@).contains(id) {
        assert(views(t.active_order@).last() == id);
    }
    if atom_by_id(t.atoms@, id) == Some(a) && t.shelf_of(a) == AtomShelf::Active && t.in_scope(a)
        && !t.searching() {
        let order = t.active_order@;
        let i = lemma_view_entry(order, id);
        assert(t.shelf_row(order[i], AtomShelf::Active) == Some(a));
        lemma_filter_map_contains(order, |x: String| t.shelf_row(x, AtomShelf::Active), a);
    }
}

/// A committed rename is what the sidebar shows as the atom's title.
pub proof fn law_committed_title_is_shown(
    s: SidebarViewModel,
    t: SidebarViewModel,
    a: DemoAtom,
    title: Seq<char>,
)
    requires
        title_views(t.display_title_overrides@) == title_views(s.display_title_overrides@).insert(
            a.id@,
            trim(title),
        ),
    ensures
        t.title_of(a) == trim(title),
{
    assert(title_views(t.display_title_overrides@).contains_key(a.id@));
    assert(t.display_title_overrides@.contains_key(a.id@));
    assert(title_views(t.display_title_overrides@)[a.id@] == t.display_title_overrides@[a.id@]@);
}

/// Toggling the same id twice (without a range) restores the selection.
pub proof fn law_toggle_twice_restores(sel: Set<Seq<char>>, id: Seq<char>)
    ensures
        toggle_one(toggle_one(sel, id), id) == sel,
{
    if sel.contains(id) {
        assert(sel.remove(id).insert(id) =~= sel);
    } else {
        assert(sel.insert(id).remove(id) =~= sel);
    }
}

/// Discarding and then showing the draft puts it back, visible, at the top
/// of the active list, with the other active rows in their order.
pub proof fn law_discard_then_show_draft(s: SidebarViewModel, t: SidebarViewModel, u: SidebarViewModel)
    requires
        s.draft_discarded(t),
        t.draft_shown(u),
    ensures
        u.draft_visible,
        views(u.active_order@) == seq![DRAFT_ID@] + without(views(s.active_order@), DRAFT_ID@),
        views(u.active_order@)[0] == DRAFT_ID@,
{
    lemma_without_contains(views(s.active_order@), DRAFT_ID@, DRAFT_ID@);
}

/// Paging the settled shelf open reaches the wanted row count and never
/// shrinks the page.
pub proof fn law_page_up_reaches(limit: int, needed: int)
    ensures
        page_up(limit, needed) >= needed,
        page_up(limit, needed) >= limit,
        limit >= needed ==> page_up(limit, needed) == limit,
        page_up(limit, needed) < if limit >= needed {
            limit + 1
        } else {
            needed + SETTLED_PAGE_SIZE
        },
    decreases needed - limit,
{
    if limit < needed && limit + SETTLED_PAGE_SIZE < needed {
        law_page_up_reaches(limit + SETTLED_PAGE_SIZE, needed);
    }
}

/// Revealing a settled atom that the settled shelf lists pages it into the
/// visible part of that shelf.
pub proof fn law_reveal_pages_settled_atom_into_view(
    s: SidebarViewModel,
    t: SidebarViewModel,
    id: Seq<char>,
)
    requires
        t == (SidebarViewModel { settled_visible_limit: t.settled_visible_limit, ..s }),
        t.settled_visible_limit == s.revealed_limit(id),
        !s.archived_atom_ids@.contains(id),
        s.id_shelf(id) == AtomShelf::Settled,
        row_ids(s.settled_rows()).contains(id),
    ensures
        row_ids(t.settled_visible_rows()).contains(id),
{
    let rows = s.settled_rows();
    SidebarViewModel::lemma_rows_depend_on_filters(t, s, s.settled_order@, AtomShelf::Settled);
    assert(t.settled_rows() == rows);
    lemma_first_index(row_ids(rows), id);
    let p = first_index(row_ids(rows), id)->0;
    law_page_up_reaches(s.settled_visible_limit as int, p + 1);
    assert(row_ids(rows)[p] == id);
    let vis = t.settled_visible_rows();
    assert(vis[p] == rows[p]);
    assert(row_ids(vis)[p] == id);
}


/// Dragging one row onto another never loses or duplicates an atom in any
/// list: every shelf order and the archive order keep their ids.
pub proof fn law_reorder_keeps_every_list(
    s: SidebarViewModel,
    t: SidebarViewModel,
    dragged: Seq<char>,
    target: Seq<char>,
    insert_after: bool,
)
    requires
        s.reordered(t, dragged, target, insert_after),
    ensures
        forall|sh: AtomShelf|
            (#[trigger] views(t.order_of(sh)@)).to_multiset() == views(
                s.order_of(sh)@,
            ).to_multiset(),
        views(t.archived_order@).to_multiset() == views(s.archived_order@).to_multiset(),
{
    lemma_reorder_permutes(views(s.archived_order@), dragged, target, insert_after);
    lemma_reorder_permutes(
        views(s.order_of(s.id_shelf(dragged))@),
        dragged,
        target,
        insert_after,
    );
}

/// A keyboard move never loses or duplicates an atom in any list.
pub proof fn law_move_atom_keeps_every_list(s: SidebarViewModel, t: SidebarViewModel, id: Seq<char>, delta: int)
    requires
        s.moved(t, id, delta),
    ensures
        forall|sh: AtomShelf|
            (#[trigger] views(t.order_of(sh)@)).to_multiset() == views(
                s.order_of(sh)@,
            ).to_multiset(),
        views(t.archived_order@).to_multiset() == views(s.archived_order@).to_multiset(),
{
    law_move_keeps_ids(views(s.archived_order@), id, delta);
    law_move_keeps_ids(views(s.order_of(s.id_shelf(id))@), id, delta);
}

/// A keyboard move keeps the same ids and puts the moved id at its target
/// index, clamped to the list.
pub proof fn law_move_keeps_ids(s: Seq<Seq<char>>, id: Seq<char>, delta: int)
    ensures
        moved_by(s, id, delta).to_multiset() == s.to_multiset(),
        match first_index(s, id) {
            Some(p) => moved_by(s, id, delta)[clamp(p + delta, 0, s.len() - 1)] == id,
            None => moved_by(s, id, delta) == s,
        },
{
    lemma_first_index(s, id);
    match first_index(s, id) {
        Some(p) => {
            let np = clamp(p + delta, 0, s.len() - 1);
            if np != p {
                lemma_move_entry_permutes(s, p, np);
            }
        },
        None => {},
    }
}

/// The search lists an atom exactly when it is a catalog atom that is not
/// archived, is in scope, and whose displayed title (its committed rename,
/// if any) holds the trimmed query, ASCII case-insensitively; an empty query
/// lists every such atom.
pub proof fn law_search_matches_displayed_title(s: SidebarViewModel, a: DemoAtom)
    ensures
        s.visible_rows().contains(a) <==> {
            &&& s.atoms@.contains(a)
            &&& !s.archived(a)
            &&& s.in_scope(a)
            &&& (trim(s.search_query@).len() == 0 || contains_folded(
                s.title_of(a),
                trim(s.search_query@),
            ))
        },
{
    lemma_filter_map_contains(s.atoms@, |x: DemoAtom| s.search_hit(x), a);
    if s.atoms@.contains(a) {
        let i = choose|i: int| 0 <= i < s.atoms@.len() && s.atoms@[i] == a;
        assert(s.search_hit(s.atoms@[i]) == s.search_hit(a));
    }
}

/// After a rename to a title that is not blank, searching for that title
/// finds the atom, when it is an unarchived catalog atom in scope.
pub proof fn law_renamed_atom_found_by_new_title(
    s: SidebarViewModel,
    t: SidebarViewModel,
    u: SidebarViewModel,
    a: DemoAtom,
    title: Seq<char>,
)
    requires
        s.atoms@.contains(a),
        !s.archived(a),
        s.in_scope(a),
        !is_blank(title),
        title_views(t.display_title_overrides@) == title_views(s.display_title_overrides@).insert(
            a.id@,
            trim(title),
        ),
        t == (SidebarViewModel {
            display_title_overrides: t.display_title_overrides,
            renaming_atom_id: None,
            ..s
        }),
        u == (SidebarViewModel { search_query: u.search_query, ..t }),
        u.search_query@ == title,
    ensures
        u.visible_rows().contains(a),
        u.search_rows().contains(a),
{
    law_committed_title_is_shown(s, t, a, title);
    assert(u.title_of(a) == trim(title));
    assert(folded_match_at(trim(title), trim(title), 0));
    law_search_matches_displayed_title(u, a);
}

/// A range selection never deselects: every id selected before stays
/// selected, the anchor and the clicked row become selected, and every newly
/// selected id is a visible row lying between the anchor and the clicked row.
pub proof fn law_range_selection_extends(s: SidebarViewModel, id: Seq<char>)
    requires
        s.visible_ids().contains(id),
        s.visible_ids().contains(s.selection_anchor()),
    ensures
        ({
            let n = s.toggled_selection(id, true);
            let ordered = s.visible_ids();
            let pa = first_index(ordered, s.selection_anchor())->0;
            let pi = first_index(ordered, id)->0;
            &&& s.selected_atom_ids@.subset_of(n)
            &&& n.contains(id)
            &&& n.contains(s.selection_anchor())
            &&& forall|x: Seq<char>|
                #![trigger n.contains(x)]
                n.contains(x) && !s.selected_atom_ids@.contains(x) ==> exists|k: int|
                    ((pa <= k <= pi) || (pi <= k <= pa)) && ordered[k] == x
        }),
{
    let ordered = s.visible_ids();
    lemma_first_index(ordered, s.selection_anchor());
    lemma_first_index(ordered, id);
    let pa = first_index(ordered, s.selection_anchor())->0;
    let pi = first_index(ordered, id)->0;
    let n = s.toggled_selection(id, true);
    let lo = if pa <= pi { pa } else { pi };
    let hi = if pa <= pi { pi } else { pa };
    assert(id_span(ordered, lo, hi + 1).contains(ordered[pi]));
    assert(id_span(ordered, lo, hi + 1).contains(ordered[pa]));
}

} // verus!
