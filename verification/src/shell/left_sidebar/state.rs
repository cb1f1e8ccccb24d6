//! Sidebar view model: search, scope, selection, and shelf partitioning.

use vstd::prelude::*;

use super::demo_data::{
    demo_atoms, demo_catalog, demo_details, atom_details, atom_facts, AtomShelf, AtomStatus, DemoAtom, DemoDraft, ALL_ATOMS_LABEL,
    DRAFT_ID,
};
use crate::id_list::{
    contains_id, first_index, lemma_first_index, lemma_without_contains, move_entry,
    move_within, position, push_unique, reorder, reorder_ids, retain_other, views, without,
};
use crate::id_map::IdMap;
use crate::id_set::IdSet;
use crate::text::{
    contains_folded, contains_ignore_ascii_case, decimal, decimal_string, is_blank, str_eq,
    str_is_blank, trim, trim_str,
};

verus! {

broadcast use vstd::seq_lib::group_seq_properties;

pub const SETTLED_PAGE_INITIAL: usize = 10;

pub const SETTLED_PAGE_SIZE: usize = 25;

/// Collapsible shelf sections that can be revealed with a height tween.
#[derive(Clone, Copy, Debug, PartialEq, Eq, Structural)]
pub enum RevealShelf {
    Pinned,
    Settled,
    Archived,
}

/// What the sidebar footer shows: the utility buttons, or a back button.
#[derive(Clone, Copy, Debug, PartialEq, Eq, Structural)]
pub enum FooterMode {
    Utilities,
    Back,
}

impl Default for FooterMode {
    fn default() -> (r: Self)
        ensures
            r == FooterMode::Utilities,
    {
        FooterMode::Utilities
    }
}

/// The utility page a footer back button returns from.
#[derive(Clone, Copy, Debug, PartialEq, Eq, Structural)]
pub enum FooterBackContext {
    Settings,
    PullRequests,
    Usage,
}

/// The first catalog index at or after `i` holding the atom with id `id`.
pub open spec fn atom_index_from(atoms: Seq<DemoAtom>, id: Seq<char>, i: int) -> Option<int>
    decreases atoms.len() - i,
{
    if 0 <= i < atoms.len() {
        if atoms[i].id@ == id {
            Some(i)
        } else {
            atom_index_from(atoms, id, i + 1)
        }
    } else {
        None
    }
}

/// The first catalog atom with id `id` (`iter().find(|t| t.id == id)`).
pub open spec fn atom_by_id(atoms: Seq<DemoAtom>, id: Seq<char>) -> Option<DemoAtom> {
    match atom_index_from(atoms, id, 0) {
        Some(k) => Some(atoms[k]),
        None => None,
    }
}

/// The ids of a list of rows.
pub open spec fn row_ids(rows: Seq<DemoAtom>) -> Seq<Seq<char>> {
    rows.map_values(|a: DemoAtom| a.id@)
}

/// The character views of the values of a map of strings.
pub open spec fn title_views(m: Map<Seq<char>, String>) -> Map<Seq<char>, Seq<char>> {
    m.map_values(|s: String| s@)
}

/// A collapsed shelf header shows its row count: `Name (n)`.
pub open spec fn shelf_label(name: Seq<char>, expanded: bool, count: nat) -> Seq<char> {
    if expanded {
        name
    } else {
        name + " ("@ + decimal(count) + ")"@
    }
}

/// Pages the settled shelf open, a page at a time, until it shows `needed` rows.
pub open spec fn page_up(limit: int, needed: int) -> int
    decreases needed - limit,
{
    if limit >= needed {
        limit
    } else if limit + SETTLED_PAGE_SIZE >= needed {
        limit + SETTLED_PAGE_SIZE
    } else {
        page_up(limit + SETTLED_PAGE_SIZE, needed)
    }
}

/// `v` clamped into `lo..=hi`.
pub open spec fn clamp(v: int, lo: int, hi: int) -> int {
    if v < lo {
        lo
    } else if v > hi {
        hi
    } else {
        v
    }
}

/// `s` after a keyboard move of `id` by `delta` places, clamped to the list.
pub open spec fn moved_by(s: Seq<Seq<char>>, id: Seq<char>, delta: int) -> Seq<Seq<char>> {
    match first_index(s, id) {
        Some(p) => {
            let np = clamp(p + delta, 0, s.len() - 1);
            if np == p {
                s
            } else {
                move_entry(s, p, np)
            }
        },
        None => s,
    }
}

/// Sidebar state: search, project scope, shelf orders, selection, renames.
#[derive(Clone, Debug)]
pub struct SidebarViewModel {
    pub atoms: Vec<DemoAtom>,
    pub search_query: String,
    pub project_scope: Option<String>,
    pub pinned_expanded: bool,
    pub settled_expanded: bool,
    pub archived_expanded: bool,
    pub settled_visible_limit: usize,
    pub active_atom_id: String,
    pub selected_atom_ids: IdSet,
    pub pinned_order: Vec<String>,
    pub active_order: Vec<String>,
    pub settled_order: Vec<String>,
    pub archived_order: Vec<String>,
    pub hovered_atom_id: Option<String>,
    pub footer_mode: FooterMode,
    pub footer_back_context: Option<FooterBackContext>,
    pub show_update_pill: bool,
    pub draft_visible: bool,
    pub atom_shelf_overrides: IdMap<AtomShelf>,
    pub archived_atom_ids: IdSet,
    pub display_title_overrides: IdMap<String>,
    pub renaming_atom_id: Option<String>,
}

/// An empty sidebar over the demo catalog: no shelf orders, nothing
/// selected, expanded or shown, the settled page limit at zero.
impl Default for SidebarViewModel {
    fn default() -> (r: Self)
        ensures
            r.atoms@.map_values(|a: DemoAtom| atom_facts(a)) == demo_catalog(),
            r.atoms@.map_values(|a: DemoAtom| atom_details(a)) == demo_details(),
            r.search_query@.len() == 0,
            r.project_scope is None,
            !r.pinned_expanded,
            !r.settled_expanded,
            !r.archived_expanded,
            r.settled_visible_limit == 0,
            r.active_atom_id@.len() == 0,
            r.selected_atom_ids@ == Set::<Seq<char>>::empty(),
            r.pinned_order@.len() == 0,
            r.active_order@.len() == 0,
            r.settled_order@.len() == 0,
            r.archived_order@.len() == 0,
            r.hovered_atom_id is None,
            r.footer_mode == FooterMode::Utilities,
            r.footer_back_context is None,
            !r.show_update_pill,
            !r.draft_visible,
            r.atom_shelf_overrides@ == Map::<Seq<char>, AtomShelf>::empty(),
            r.archived_atom_ids@ == Set::<Seq<char>>::empty(),
            r.display_title_overrides@ == Map::<Seq<char>, String>::empty(),
            r.renaming_atom_id is None,
    {
        SidebarViewModel {
            atoms: demo_atoms(),
            search_query: String::new(),
            project_scope: None,
            pinned_expanded: false,
            settled_expanded: false,
            archived_expanded: false,
            settled_visible_limit: 0,
            active_atom_id: String::new(),
            selected_atom_ids: IdSet::new(),
            pinned_order: Vec::new(),
            active_order: Vec::new(),
            settled_order: Vec::new(),
            archived_order: Vec::new(),
            hovered_atom_id: None,
            footer_mode: FooterMode::Utilities,
            footer_back_context: None,
            show_update_pill: false,
            draft_visible: false,
            atom_shelf_overrides: IdMap::new(),
            archived_atom_ids: IdSet::new(),
            display_title_overrides: IdMap::new(),
            renaming_atom_id: None,
        }
    }
}

impl SidebarViewModel {
    /// The shelf an atom is on: its override if one was set, else its own.
    pub open spec fn shelf_of(self, a: DemoAtom) -> AtomShelf {
        if self.atom_shelf_overrides@.contains_key(a.id@) {
            self.atom_shelf_overrides@[a.id@]
        } else {
            a.shelf
        }
    }

    /// Whether an atom is archived.
    pub open spec fn archived(self, a: DemoAtom) -> bool {
        self.archived_atom_ids@.contains(a.id@)
    }

    /// The title shown for an atom: its rename if one was committed.
    pub open spec fn title_of(self, a: DemoAtom) -> Seq<char> {
        if self.display_title_overrides@.contains_key(a.id@) {
            self.display_title_overrides@[a.id@]@
        } else {
            a.title@
        }
    }

    /// Whether an atom belongs to the project in scope, if any.
    pub open spec fn in_scope(self, a: DemoAtom) -> bool {
        match self.project_scope {
            None => true,
            Some(k) => a.project_key@ == k@,
        }
    }

    /// Whether a search is in progress (the query is not blank).
    pub open spec fn searching(self) -> bool {
        !is_blank(self.search_query@)
    }

    /// The catalog atom listed under `id` on `shelf`, when it shows there.
    pub open spec fn shelf_row(self, id: String, shelf: AtomShelf) -> Option<DemoAtom> {
        match atom_by_id(self.atoms@, id@) {
            Some(a) => if !self.archived(a) && self.shelf_of(a) == shelf && self.in_scope(a) {
                Some(a)
            } else {
                None
            },
            None => None,
        }
    }

    /// The rows a shelf order lists: known, unarchived, in-scope atoms on `shelf`.
    pub open spec fn shelf_rows(self, order: Seq<String>, shelf: AtomShelf) -> Seq<DemoAtom> {
        order.filter_map(|id: String| self.shelf_row(id, shelf))
    }

    pub open spec fn pinned_rows(self) -> Seq<DemoAtom> {
        if self.searching() {
            Seq::empty()
        } else {
            self.shelf_rows(self.pinned_order@, AtomShelf::Pinned)
        }
    }

    pub open spec fn active_rows(self) -> Seq<DemoAtom> {
        if self.searching() {
            Seq::empty()
        } else {
            self.shelf_rows(self.active_order@, AtomShelf::Active)
        }
    }

    pub open spec fn settled_rows(self) -> Seq<DemoAtom> {
        if self.searching() {
            Seq::empty()
        } else {
            self.shelf_rows(self.settled_order@, AtomShelf::Settled)
        }
    }

    /// The settled rows within the current page limit.
    pub open spec fn settled_visible_rows(self) -> Seq<DemoAtom> {
        let rows = self.settled_rows();
        if self.settled_visible_limit < rows.len() {
            rows.take(self.settled_visible_limit as int)
        } else {
            rows
        }
    }

    /// The catalog atom listed under `id` on the archived shelf, when it shows there.
    pub open spec fn archived_row(self, id: String) -> Option<DemoAtom> {
        match atom_by_id(self.atoms@, id@) {
            Some(a) => if self.archived(a) && self.in_scope(a) {
                Some(a)
            } else {
                None
            },
            None => None,
        }
    }

    pub open spec fn archived_rows(self) -> Seq<DemoAtom> {
        if self.searching() {
            Seq::empty()
        } else {
            self.archived_order@.filter_map(|id: String| self.archived_row(id))
        }
    }

    /// An atom kept by the search: unarchived, in scope, and titled with the
    /// trimmed query (ASCII case-insensitively) unless that query is empty.
    pub open spec fn search_hit(self, a: DemoAtom) -> Option<DemoAtom> {
        let q = trim(self.search_query@);
        if !self.archived(a) && self.in_scope(a) && (q.len() == 0 || contains_folded(
            self.title_of(a),
            q,
        )) {
            Some(a)
        } else {
            None
        }
    }

    /// Catalog atoms that pass the search filter, in catalog order.
    pub open spec fn visible_rows(self) -> Seq<DemoAtom> {
        self.atoms@.filter_map(|a: DemoAtom| self.search_hit(a))
    }

    pub open spec fn search_rows(self) -> Seq<DemoAtom> {
        if self.searching() {
            self.visible_rows()
        } else {
            Seq::empty()
        }
    }

    /// The shelf a row id belongs to; the draft and unknown ids count as active.
    pub open spec fn id_shelf(self, id: Seq<char>) -> AtomShelf {
        if id == DRAFT_ID@ {
            AtomShelf::Active
        } else {
            match atom_by_id(self.atoms@, id) {
                Some(a) => self.shelf_of(a),
                None => AtomShelf::Active,
            }
        }
    }

    /// The order list of a shelf.
    pub open spec fn order_of(self, shelf: AtomShelf) -> Vec<String> {
        match shelf {
            AtomShelf::Pinned => self.pinned_order,
            AtomShelf::Active => self.active_order,
            AtomShelf::Settled => self.settled_order,
        }
    }

    /// This state with the order list of `shelf` replaced.
    pub open spec fn with_order(self, shelf: AtomShelf, order: Vec<String>) -> Self {
        match shelf {
            AtomShelf::Pinned => SidebarViewModel { pinned_order: order, ..self },
            AtomShelf::Active => SidebarViewModel { active_order: order, ..self },
            AtomShelf::Settled => SidebarViewModel { settled_order: order, ..self },
        }
    }

    /// The order list that holds `id` for keyboard moves: archived ids use
    /// the archived order, others the order of their shelf.
    pub open spec fn move_order(self, id: Seq<char>) -> Vec<String> {
        if self.archived_atom_ids@.contains(id) {
            self.archived_order
        } else {
            self.order_of(self.id_shelf(id))
        }
    }

    /// Whether a row fades back: settled or archived rows always do, unread
    /// or woke rows never do, and otherwise rows whose agent is idle or busy
    /// without needing attention do; the active or a selected row never does.
    pub open spec fn recedes(self, a: DemoAtom) -> bool {
        if a.id@ == self.active_atom_id@ || self.selected_atom_ids@.contains(a.id@) {
            false
        } else if self.archived(a) || self.shelf_of(a) == AtomShelf::Settled {
            true
        } else if a.is_unread || a.is_woke {
            false
        } else {
            match a.status {
                AtomStatus::Ready | AtomStatus::Working | AtomStatus::Monitoring
                | AtomStatus::Approval | AtomStatus::Input => true,
                _ => false,
            }
        }
    }

    /// The row ids a keyboard or range selection walks, top to bottom: the
    /// draft, the pinned rows if expanded, the active rows, and the visible
    /// settled rows if expanded.
    pub open spec fn visible_ids(self) -> Seq<Seq<char>> {
        (if self.draft_visible {
            seq![DRAFT_ID@]
        } else {
            Seq::empty()
        }) + (if self.pinned_expanded {
            row_ids(self.pinned_rows())
        } else {
            Seq::empty()
        }) + row_ids(self.active_rows()) + (if self.settled_expanded {
            row_ids(self.settled_visible_rows())
        } else {
            Seq::empty()
        })
    }

    /// Whether the active shelf section lists `id`: the draft while it is
    /// visible, other ids while they head an active row.
    pub open spec fn active_section_keeps(self, id: String) -> bool {
        if id@ == DRAFT_ID@ {
            self.draft_visible
        } else {
            exists|k: int| 0 <= k < self.active_rows().len() && self.active_rows()[k].id@ == id@
        }
    }

    /// `id` when the active section lists it.
    pub open spec fn section_entry(self, id: String) -> Option<String> {
        if self.active_section_keeps(id) {
            Some(id)
        } else {
            None
        }
    }

    /// The ids the active section lists among the first `n` of the active order.
    pub open spec fn section_prefix(self, n: int) -> Seq<Seq<char>> {
        views(self.active_order@.take(n).filter_map(|id: String| self.section_entry(id)))
    }

    /// The active section row ids (draft + inbox atoms) in display order.
    pub open spec fn active_section(self) -> Seq<Seq<char>> {
        if self.searching() {
            Seq::empty()
        } else {
            self.section_prefix(self.active_order@.len() as int)
        }
    }


    /// The anchor of a range selection: the first selected id, else the active id.
    pub open spec fn selection_anchor(self) -> Seq<char> {
        if self.selected_atom_ids.order().len() > 0 {
            self.selected_atom_ids.order()[0]
        } else {
            self.active_atom_id@
        }
    }

    /// The selection after toggling `id`; a range toggle adds every visible
    /// row between the anchor and `id` when both are visible.
    pub open spec fn toggled_selection(self, id: Seq<char>, range_select: bool) -> Set<Seq<char>> {
        let ordered = self.visible_ids();
        let from = first_index(ordered, self.selection_anchor());
        let to = first_index(ordered, id);
        if range_select && from is Some && to is Some {
            let lo = if from->0 <= to->0 {
                from->0
            } else {
                to->0
            };
            let hi = if from->0 <= to->0 {
                to->0
            } else {
                from->0
            };
            self.selected_atom_ids@.union(id_span(ordered, lo, hi + 1))
        } else {
            toggle_one(self.selected_atom_ids@, id)
        }
    }

    /// The state after a drag of `dragged` onto `target`: both archived
    /// reorders the archive; both on one shelf reorders that shelf; anything
    /// else changes nothing.
    pub open spec fn reordered(self, after: Self, dragged: Seq<char>, target: Seq<char>, insert_after: bool) -> bool {
        if dragged == target {
            after == self
        } else if self.archived_atom_ids@.contains(dragged) && self.archived_atom_ids@.contains(
            target,
        ) {
            &&& after == (SidebarViewModel { archived_order: after.archived_order, ..self })
            &&& views(after.archived_order@) == reorder(
                views(self.archived_order@),
                dragged,
                target,
                insert_after,
            )
        } else if self.id_shelf(dragged) != self.id_shelf(target) {
            after == self
        } else {
            let sh = self.id_shelf(dragged);
            &&& after == self.with_order(sh, after.order_of(sh))
            &&& views(after.order_of(sh)@) == reorder(
                views(self.order_of(sh)@),
                dragged,
                target,
                insert_after,
            )
        }
    }

    /// Whether a keyboard move of `id` by `delta` stays within `isize`.
    pub open spec fn move_delta_fits(self, id: Seq<char>, delta: int) -> bool {
        &&& self.move_order(id).len() <= isize::MAX
        &&& match first_index(views(self.move_order(id)@), id) {
            Some(p) => p + delta <= isize::MAX,
            None => true,
        }
    }

    /// The state after moving `id` by `delta` within the list that holds it.
    pub open spec fn moved(self, after: Self, id: Seq<char>, delta: int) -> bool {
        if self.archived_atom_ids@.contains(id) {
            &&& after == (SidebarViewModel { archived_order: after.archived_order, ..self })
            &&& views(after.archived_order@) == moved_by(views(self.archived_order@), id, delta)
        } else {
            let sh = self.id_shelf(id);
            &&& after == self.with_order(sh, after.order_of(sh))
            &&& views(after.order_of(sh)@) == moved_by(views(self.order_of(sh)@), id, delta)
        }
    }

    /// The settled page limit after revealing `id`: a settled, unarchived atom
    /// listed on the settled shelf is paged into view; nothing else changes it.
    pub open spec fn revealed_limit(self, id: Seq<char>) -> int {
        if self.archived_atom_ids@.contains(id) || self.id_shelf(id) != AtomShelf::Settled {
            self.settled_visible_limit as int
        } else {
            match first_index(row_ids(self.settled_rows()), id) {
                Some(p) => page_up(self.settled_visible_limit as int, p + 1),
                None => self.settled_visible_limit as int,
            }
        }
    }

    /// The state after `id` is taken off every shelf and the archive list and
    /// put at the end of `shelf`, with `shelf` recorded as its shelf.
    pub open spec fn placed_on_shelf(self, after: Self, id: Seq<char>, shelf: AtomShelf) -> bool {
        &&& views(after.pinned_order@) == placed(
            views(self.pinned_order@),
            id,
            shelf == AtomShelf::Pinned,
        )
        &&& views(after.active_order@) == placed(
            views(self.active_order@),
            id,
            shelf == AtomShelf::Active,
        )
        &&& views(after.settled_order@) == placed(
            views(self.settled_order@),
            id,
            shelf == AtomShelf::Settled,
        )
        &&& views(after.archived_order@) == without(views(self.archived_order@), id)
        &&& after.atom_shelf_overrides@ == self.atom_shelf_overrides@.insert(id, shelf)
        &&& after == (SidebarViewModel {
            pinned_order: after.pinned_order,
            active_order: after.active_order,
            settled_order: after.settled_order,
            archived_order: after.archived_order,
            atom_shelf_overrides: after.atom_shelf_overrides,
            ..self
        })
    }

    /// The state after archiving `id`: off every shelf, last in the archive,
    /// unselected, no longer renamed, and the draft activated in its place.
    pub open spec fn archived_to(self, after: Self, id: Seq<char>) -> bool {
        &&& views(after.pinned_order@) == without(views(self.pinned_order@), id)
        &&& views(after.active_order@) == without(views(self.active_order@), id)
        &&& views(after.settled_order@) == without(views(self.settled_order@), id)
        &&& views(after.archived_order@) == without(views(self.archived_order@), id).push(id)
        &&& after.archived_atom_ids@ == self.archived_atom_ids@.insert(id)
        &&& after.selected_atom_ids@ == self.selected_atom_ids@.remove(id)
        &&& after.renaming_atom_id == if self.renaming_atom_id matches Some(r) && r@ == id {
            None
        } else {
            self.renaming_atom_id
        }
        &&& after.active_atom_id@ == if self.active_atom_id@ == id {
            DRAFT_ID@
        } else {
            self.active_atom_id@
        }
        &&& after == (SidebarViewModel {
            pinned_order: after.pinned_order,
            active_order: after.active_order,
            settled_order: after.settled_order,
            archived_order: after.archived_order,
            archived_atom_ids: after.archived_atom_ids,
            selected_atom_ids: after.selected_atom_ids,
            renaming_atom_id: after.renaming_atom_id,
            active_atom_id: after.active_atom_id,
            ..self
        })
    }

    /// The state after unarchiving `id`: out of the archive, and on the
    /// active list (appended unless already there).
    pub open spec fn unarchived_to(self, after: Self, id: Seq<char>) -> bool {
        &&& after.archived_atom_ids@ == self.archived_atom_ids@.remove(id)
        &&& views(after.archived_order@) == without(views(self.archived_order@), id)
        &&& views(after.active_order@) == if views(self.active_order@).contains(id) {
            views(self.active_order@)
        } else {
            views(self.active_order@).push(id)
        }
        &&& after == (SidebarViewModel {
            archived_atom_ids: after.archived_atom_ids,
            archived_order: after.archived_order,
            active_order: after.active_order,
            ..self
        })
    }


    /// The state after discarding the draft: hidden, off the active list and
    /// the selection; an active draft hands activation to the first active
    /// row left (or `active-1` when there is none).
    pub open spec fn draft_discarded(self, after: Self) -> bool {
        &&& views(after.active_order@) == without(views(self.active_order@), DRAFT_ID@)
        &&& after.selected_atom_ids@ == self.selected_atom_ids@.remove(DRAFT_ID@)
        &&& after.active_atom_id@ == if self.active_atom_id@ == DRAFT_ID@ {
            if after.active_rows().len() > 0 {
                after.active_rows()[0].id@
            } else {
                "active-1"@
            }
        } else {
            self.active_atom_id@
        }
        &&& after == (SidebarViewModel {
            draft_visible: false,
            active_order: after.active_order,
            active_atom_id: after.active_atom_id,
            selected_atom_ids: after.selected_atom_ids,
            ..self
        })
    }

    /// The state after showing the draft: visible, and first on the active
    /// list unless the list already holds it.
    pub open spec fn draft_shown(self, after: Self) -> bool {
        &&& views(after.active_order@) == if views(self.active_order@).contains(DRAFT_ID@) {
            views(self.active_order@)
        } else {
            seq![DRAFT_ID@] + views(self.active_order@)
        }
        &&& after == (SidebarViewModel {
            draft_visible: true,
            active_order: after.active_order,
            ..self
        })
    }

    /// The scope label: all atoms, or the title of the first atom of the
    /// project in scope (all atoms again when no atom has that project).
    pub open spec fn scoped_label_spec(self) -> Seq<char> {
        match self.project_scope {
            None => ALL_ATOMS_LABEL@,
            Some(key) => match atom_key_index_from(self.atoms@, key@, 0) {
                Some(k) => self.atoms@[k].project_title@,
                None => ALL_ATOMS_LABEL@,
            },
        }
    }
}

/// The ids at positions `lo..hi` of `ordered`.
pub open spec fn id_span(ordered: Seq<Seq<char>>, lo: int, hi: int) -> Set<Seq<char>> {
    Set::new(|x: Seq<char>| exists|k: int| lo <= k < hi && ordered[k] == x)
}

/// `sel` with `id` removed if present, added otherwise.
pub open spec fn toggle_one(sel: Set<Seq<char>>, id: Seq<char>) -> Set<Seq<char>> {
    if sel.contains(id) {
        sel.remove(id)
    } else {
        sel.insert(id)
    }
}

/// A shelf order after `id` moves: gone, then appended when it lands `here`.
pub open spec fn placed(s: Seq<Seq<char>>, id: Seq<char>, here: bool) -> Seq<Seq<char>> {
    if here {
        without(s, id).push(id)
    } else {
        without(s, id)
    }
}

/// The first catalog index at or after `i` of an atom of project `key`.
pub open spec fn atom_key_index_from(atoms: Seq<DemoAtom>, key: Seq<char>, i: int) -> Option<int>
    decreases atoms.len() - i,
{
    if 0 <= i < atoms.len() {
        if atoms[i].project_key@ == key {
            Some(i)
        } else {
            atom_key_index_from(atoms, key, i + 1)
        }
    } else {
        None
    }
}


/// The ids of the catalog atoms whose own shelf is `shelf`, in catalog order.
pub open spec fn catalog_ids_on(atoms: Seq<DemoAtom>, shelf: AtomShelf) -> Seq<Seq<char>> {
    atoms.filter_map(|a: DemoAtom| if a.shelf == shelf {
        Some(a.id@)
    } else {
        None
    })
}

/// An active order with the draft row in front, unless it already holds it.
pub open spec fn with_draft(order: Seq<Seq<char>>, draft_visible: bool) -> Seq<Seq<char>> {
    if draft_visible && !order.contains(DRAFT_ID@) {
        seq![DRAFT_ID@] + order
    } else {
        order
    }
}

/// The demo composer draft.
pub fn demo_draft() -> (r: DemoDraft)
    ensures
        r.id@ == DRAFT_ID@,
        r.preview@ == "Sketch the workspace onboarding checklist"@,
        r.project_key@ == "opencore"@,
        r.project_title@ == "opencore_rustroops"@,
{
    DemoDraft {
        id: DRAFT_ID.to_owned(),
        preview: "Sketch the workspace onboarding checklist".to_owned(),
        project_key: "opencore".to_owned(),
        project_title: "opencore_rustroops".to_owned(),
    }
}

/// The ids of the catalog atoms whose own shelf is `shelf`.
fn shelf_order_from_demo(atoms: &Vec<DemoAtom>, shelf: AtomShelf) -> (r: Vec<String>)
    ensures
        views(r@) == catalog_ids_on(atoms@, shelf),
{
    let mut out: Vec<String> = Vec::new();
    let mut i: usize = 0;
    while i < atoms.len()
        invariant
            i <= atoms.len(),
            views(out@) == catalog_ids_on(atoms@.take(i as int), shelf),
        decreases atoms.len() - i,
    {
        proof {
            assert(atoms@.take(i + 1).drop_last() =~= atoms@.take(i as int));
        }
        if atoms[i].shelf == shelf {
            out.push(atoms[i].id.clone());
        }
        proof {
            assert(views(out@) =~= catalog_ids_on(atoms@.take(i + 1), shelf));
        }
        i = i + 1;
    }
    proof {
        assert(atoms@.take(i as int) =~= atoms@);
    }
    out
}

/// Puts the draft row at the front of an active order when it is visible.
fn active_order_with_draft(active_order: Vec<String>, draft_visible: bool) -> (r: Vec<String>)
    ensures
        views(r@) == with_draft(views(active_order@), draft_visible),
{
    let mut order = active_order;
    if draft_visible && !contains_id(&order, DRAFT_ID) {
        order.insert(0, DRAFT_ID.to_owned());
        proof {
            assert(views(order@) =~= seq![DRAFT_ID@] + views(active_order@));
        }
    }
    order
}

/// Whether one of `rows` has id `id`.
fn rows_contain_id(rows: &Vec<&DemoAtom>, id: &str) -> (r: bool)
    ensures
        r == exists|k: int| 0 <= k < rows@.len() && rows@[k].id@ == id@,
{
    let mut i: usize = 0;
    while i < rows.len()
        invariant
            i <= rows.len(),
            forall|k: int| 0 <= k < i ==> rows@[k].id@ != id@,
        decreases rows.len() - i,
    {
        if str_eq(rows[i].id.as_str(), id) {
            return true;
        }
        i = i + 1;
    }
    false
}

/// Appends the ids of `rows` to `ids`.
fn extend_ids(ids: &mut Vec<String>, rows: &Vec<&DemoAtom>)
    ensures
        views(final(ids)@) == views(old(ids)@) + row_ids(rows@.unref()),
{
    let mut i: usize = 0;
    while i < rows.len()
        invariant
            i <= rows.len(),
            views(ids@) == views(old(ids)@) + row_ids(rows@.unref().take(i as int)),
        decreases rows.len() - i,
    {
        let ghost before = views(ids@);
        let id = rows[i].id.clone();
        ids.push(id);
        proof {
            let u = rows@.unref();
            assert(u[i as int] == *rows@[i as int]);
            assert(u.take(i + 1) =~= u.take(i as int).push(u[i as int]));
            assert(row_ids(u.take(i + 1)) =~= row_ids(u.take(i as int)).push(u[i as int].id@));
            assert(views(ids@) =~= before.push(id@));
            assert(views(ids@) =~= views(old(ids)@) + row_ids(rows@.unref().take(i + 1)));
        }
        i = i + 1;
    }
    proof {
        assert(rows@.unref().take(i as int) =~= rows@.unref());
    }
}

impl SidebarViewModel {
    /// A sidebar over the demo catalog with `active_atom_id` active: every
    /// catalog atom on its own shelf, the draft at the top of the active
    /// shelf, pinned and settled shelves expanded, archive collapsed, the
    /// first settled page shown, and nothing searched, selected or renamed.
    pub fn new(active_atom_id: &str) -> (r: Self)
        ensures
            r.atoms@.map_values(|a: DemoAtom| atom_facts(a)) == demo_catalog(),
            r.atoms@.map_values(|a: DemoAtom| atom_details(a)) == demo_details(),
            views(r.pinned_order@) == catalog_ids_on(r.atoms@, AtomShelf::Pinned),
            views(r.active_order@) == with_draft(catalog_ids_on(r.atoms@, AtomShelf::Active), true),
            views(r.settled_order@) == catalog_ids_on(r.atoms@, AtomShelf::Settled),
            r.archived_order@.len() == 0,
            r.search_query@.len() == 0,
            r.project_scope is None,
            r.pinned_expanded,
            r.settled_expanded,
            !r.archived_expanded,
            r.settled_visible_limit == SETTLED_PAGE_INITIAL,
            r.active_atom_id@ == active_atom_id@,
            r.selected_atom_ids@ == Set::<Seq<char>>::empty(),
            r.hovered_atom_id is None,
            r.footer_mode == FooterMode::Utilities,
            r.footer_back_context is None,
            r.show_update_pill,
            r.draft_visible,
            r.atom_shelf_overrides@ == Map::<Seq<char>, AtomShelf>::empty(),
            r.archived_atom_ids@ == Set::<Seq<char>>::empty(),
            r.display_title_overrides@ == Map::<Seq<char>, String>::empty(),
            r.renaming_atom_id is None,
    {
        let atoms = demo_atoms();
        let pinned_order = shelf_order_from_demo(&atoms, AtomShelf::Pinned);
        let active_order = shelf_order_from_demo(&atoms, AtomShelf::Active);
        let settled_order = shelf_order_from_demo(&atoms, AtomShelf::Settled);
        SidebarViewModel {
            atoms,
            search_query: String::new(),
            project_scope: None,
            pinned_expanded: true,
            settled_expanded: true,
            archived_expanded: false,
            settled_visible_limit: SETTLED_PAGE_INITIAL,
            active_atom_id: active_atom_id.to_owned(),
            selected_atom_ids: IdSet::new(),
            pinned_order,
            active_order: active_order_with_draft(active_order, true),
            settled_order,
            archived_order: Vec::new(),
            hovered_atom_id: None,
            footer_mode: FooterMode::Utilities,
            footer_back_context: None,
            show_update_pill: true,
            draft_visible: true,
            atom_shelf_overrides: IdMap::new(),
            archived_atom_ids: IdSet::new(),
            display_title_overrides: IdMap::new(),
            renaming_atom_id: None,
        }
    }

    /// Switches the footer to a back button for a utility page.
    pub fn open_footer_utility(&mut self, context: FooterBackContext)
        ensures
            *final(self) == (SidebarViewModel {
                footer_mode: FooterMode::Back,
                footer_back_context: Some(context),
                ..*old(self)
            }),
    {
        self.footer_mode = FooterMode::Back;
        self.footer_back_context = Some(context);
    }

    /// Returns the footer to its utility buttons.
    pub fn close_footer_utility(&mut self)
        ensures
            *final(self) == (SidebarViewModel {
                footer_mode: FooterMode::Utilities,
                footer_back_context: None,
                ..*old(self)
            }),
    {
        self.footer_mode = FooterMode::Utilities;
        self.footer_back_context = None;
    }

    /// The catalog index of the first atom with id `id`.
    fn find_atom(&self, id: &str) -> (r: Option<usize>)
        ensures
            match r {
                Some(k) => atom_index_from(self.atoms@, id@, 0) == Some(k as int) && k
                    < self.atoms.len() && self.atoms@[k as int].id@ == id@,
                None => atom_index_from(self.atoms@, id@, 0) is None,
            },
    {
        let mut i: usize = 0;
        while i < self.atoms.len()
            invariant
                i <= self.atoms.len(),
                atom_index_from(self.atoms@, id@, 0) == atom_index_from(self.atoms@, id@, i as int),
            decreases self.atoms.len() - i,
        {
            if str_eq(self.atoms[i].id.as_str(), id) {
                return Some(i);
            }
            i = i + 1;
        }
        None
    }

    pub fn effective_shelf(&self, atom: &DemoAtom) -> (r: AtomShelf)
        ensures
            r == self.shelf_of(*atom),
    {
        match self.atom_shelf_overrides.get(atom.id.as_str()) {
            Some(s) => *s,
            None => atom.shelf,
        }
    }

    pub fn is_archived(&self, atom: &DemoAtom) -> (r: bool)
        ensures
            r == self.archived(*atom),
    {
        self.archived_atom_ids.contains(atom.id.as_str())
    }

    pub fn display_title(&self, atom: &DemoAtom) -> (r: String)
        ensures
            r@ == self.title_of(*atom),
    {
        match self.display_title_overrides.get(atom.id.as_str()) {
            Some(t) => t.clone(),
            None => atom.title.clone(),
        }
    }

    fn matches_scope(&self, atom: &DemoAtom) -> (r: bool)
        ensures
            r == self.in_scope(*atom),
    {
        match &self.project_scope {
            None => true,
            Some(key) => str_eq(atom.project_key.as_str(), key.as_str()),
        }
    }

    pub fn clear_search(&mut self)
        ensures
            final(self).search_query@.len() == 0,
            *final(self) == (SidebarViewModel {
                search_query: final(self).search_query,
                ..*old(self)
            }),
    {
        self.search_query = String::new();
    }

    pub fn is_searching(&self) -> (r: bool)
        ensures
            r == self.searching(),
    {
        !str_is_blank(self.search_query.as_str())
    }

    pub fn scoped_label(&self) -> (r: &str)
        ensures
            r@ == self.scoped_label_spec(),
    {
        match &self.project_scope {
            None => ALL_ATOMS_LABEL,
            Some(key) => {
                let mut i: usize = 0;
                while i < self.atoms.len()
                    invariant
                        i <= self.atoms.len(),
                        self.project_scope == Some(*key),
                        atom_key_index_from(self.atoms@, key@, 0) == atom_key_index_from(
                            self.atoms@,
                            key@,
                            i as int,
                        ),
                    decreases self.atoms.len() - i,
                {
                    if str_eq(self.atoms[i].project_key.as_str(), key.as_str()) {
                        return self.atoms[i].project_title.as_str();
                    }
                    i = i + 1;
                }
                ALL_ATOMS_LABEL
            },
        }
    }

    fn atoms_in_order(&self, order: &[String], shelf: AtomShelf) -> (r: Vec<&DemoAtom>)
        ensures
            r@.unref() == self.shelf_rows(order@, shelf),
    {
        let mut out: Vec<&DemoAtom> = Vec::new();
        let mut i: usize = 0;
        while i < order.len()
            invariant
                i <= order@.len(),
                out@.unref() == self.shelf_rows(order@.take(i as int), shelf),
            decreases order@.len() - i,
        {
            proof {
                assert(order@.take(i + 1).drop_last() =~= order@.take(i as int));
            }
            let found = self.find_atom(order[i].as_str());
            match found {
                Some(k) => {
                    let a = &self.atoms[k];
                    if !self.is_archived(a) && self.effective_shelf(a) == shelf
                        && self.matches_scope(a) {
                        out.push(a);
                    }
                },
                None => {},
            }
            proof {
                assert(out@.unref() =~= self.shelf_rows(order@.take(i + 1), shelf));
            }
            i = i + 1;
        }
        proof {
            assert(order@.take(i as int) =~= order@);
        }
        out
    }

    pub fn visible_atoms(&self) -> (r: Vec<&DemoAtom>)
        ensures
            r@.unref() == self.visible_rows(),
    {
        let query = trim_str(self.search_query.as_str());
        let query_empty = query.unicode_len() == 0;
        let mut out: Vec<&DemoAtom> = Vec::new();
        let mut i: usize = 0;
        while i < self.atoms.len()
            invariant
                i <= self.atoms.len(),
                query@ == trim(self.search_query@),
                query_empty == (query@.len() == 0),
                out@.unref() == self.atoms@.take(i as int).filter_map(
                    |a: DemoAtom| self.search_hit(a),
                ),
            decreases self.atoms.len() - i,
        {
            proof {
                assert(self.atoms@.take(i + 1).drop_last() =~= self.atoms@.take(i as int));
            }
            let a = &self.atoms[i];
            if !self.is_archived(a) && self.matches_scope(a) {
                let keep = if query_empty {
                    true
                } else {
                    let title = self.display_title(a);
                    contains_ignore_ascii_case(title.as_str(), query)
                };
                if keep {
                    out.push(a);
                }
            }
            proof {
                assert(out@.unref() =~= self.atoms@.take(i + 1).filter_map(
                    |a: DemoAtom| self.search_hit(a),
                ));
            }
            i = i + 1;
        }
        proof {
            assert(self.atoms@.take(i as int) =~= self.atoms@);
        }
        out
    }

    pub fn pinned_atoms(&self) -> (r: Vec<&DemoAtom>)
        ensures
            r@.unref() == self.pinned_rows(),
    {
        if self.is_searching() {
            return Vec::new();
        }
        self.atoms_in_order(self.pinned_order.as_slice(), AtomShelf::Pinned)
    }

    pub fn active_atoms(&self) -> (r: Vec<&DemoAtom>)
        ensures
            r@.unref() == self.active_rows(),
    {
        if self.is_searching() {
            return Vec::new();
        }
        self.atoms_in_order(self.active_order.as_slice(), AtomShelf::Active)
    }

    /// Active section row ids (draft + inbox atoms) in display order.
    pub fn active_section_ids(&self) -> (r: Vec<String>)
        ensures
            views(r@) == self.active_section(),
    {
        if self.is_searching() {
            return Vec::new();
        }
        let rows = self.active_atoms();
        let mut out: Vec<String> = Vec::new();
        let mut i: usize = 0;
        while i < self.active_order.len()
            invariant
                i <= self.active_order.len(),
                !self.searching(),
                rows@.unref() == self.active_rows(),
                views(out@) == self.section_prefix(i as int),
            decreases self.active_order.len() - i,
        {
            proof {
                assert(self.active_order@.take(i + 1).drop_last() =~= self.active_order@.take(
                    i as int,
                ));
            }
            let id = &self.active_order[i];
            let keep = if str_eq(id.as_str(), DRAFT_ID) {
                self.draft_visible
            } else {
                let found = rows_contain_id(&rows, id.as_str());
                proof {
                    assert(found == exists|k: int|
                        0 <= k < self.active_rows().len() && self.active_rows()[k].id@ == id@) by {
                        if found {
                            let k = choose|k: int| 0 <= k < rows@.len() && rows@[k].id@ == id@;
                            assert(self.active_rows()[k] == rows@.unref()[k]);
                        }
                        if exists|k: int|
                            0 <= k < self.active_rows().len() && self.active_rows()[k].id@ == id@ {
                            let k = choose|k: int|
                                0 <= k < self.active_rows().len() && self.active_rows()[k].id@
                                    == id@;
                            assert(self.active_rows()[k] == rows@.unref()[k]);
                        }
                    }
                }
                found
            };
            let ghost before = views(out@);
            if keep {
                let c = id.clone();
                out.push(c);
                proof {
                    assert(views(out@) =~= before.push(id@));
                }
            }
            proof {
                let o = self.active_order@;
                assert(o.take(i + 1).last() == o[i as int]);
                assert(keep == self.active_section_keeps(o[i as int]));
                assert(views(out@) =~= self.section_prefix(i + 1));
            }
            i = i + 1;
        }
        proof {
            assert(self.active_order@.take(i as int) =~= self.active_order@);
        }
        out
    }

    pub fn is_draft_active(&self) -> (r: bool)
        ensures
            r == (self.active_atom_id@ == DRAFT_ID@),
    {
        str_eq(self.active_atom_id.as_str(), DRAFT_ID)
    }

    pub fn is_draft_selected(&self) -> (r: bool)
        ensures
            r == self.selected_atom_ids@.contains(DRAFT_ID@),
    {
        self.selected_atom_ids.contains(DRAFT_ID)
    }

    pub fn settled_atoms(&self) -> (r: Vec<&DemoAtom>)
        ensures
            r@.unref() == self.settled_rows(),
    {
        if self.is_searching() {
            return Vec::new();
        }
        self.atoms_in_order(self.settled_order.as_slice(), AtomShelf::Settled)
    }

    pub fn archived_atoms(&self) -> (r: Vec<&DemoAtom>)
        ensures
            r@.unref() == self.archived_rows(),
    {
        if self.is_searching() {
            return Vec::new();
        }
        let mut out: Vec<&DemoAtom> = Vec::new();
        let mut i: usize = 0;
        while i < self.archived_order.len()
            invariant
                i <= self.archived_order.len(),
                !self.searching(),
                out@.unref() == self.archived_order@.take(i as int).filter_map(
                    |id: String| self.archived_row(id),
                ),
            decreases self.archived_order.len() - i,
        {
            proof {
                assert(self.archived_order@.take(i + 1).drop_last() =~= self.archived_order@.take(
                    i as int,
                ));
            }
            let found = self.find_atom(self.archived_order[i].as_str());
            match found {
                Some(k) => {
                    let a = &self.atoms[k];
                    if self.is_archived(a) && self.matches_scope(a) {
                        out.push(a);
                    }
                },
                None => {},
            }
            proof {
                assert(out@.unref() =~= self.archived_order@.take(i + 1).filter_map(
                    |id: String| self.archived_row(id),
                ));
            }
            i = i + 1;
        }
        proof {
            assert(self.archived_order@.take(i as int) =~= self.archived_order@);
        }
        out
    }

    pub fn search_results(&self) -> (r: Vec<&DemoAtom>)
        ensures
            r@.unref() == self.search_rows(),
    {
        if !self.is_searching() {
            return Vec::new();
        }
        self.visible_atoms()
    }

    pub fn settled_visible(&self) -> (r: Vec<&DemoAtom>)
        ensures
            r@.unref() == self.settled_visible_rows(),
    {
        let rows = self.settled_atoms();
        let limit = self.settled_visible_limit;
        let n = if limit < rows.len() {
            limit
        } else {
            rows.len()
        };
        let mut out: Vec<&DemoAtom> = Vec::new();
        let mut i: usize = 0;
        while i < n
            invariant
                i <= n <= rows.len(),
                out@.unref() == rows@.unref().take(i as int),
            decreases n - i,
        {
            let ghost before = out@.unref();
            let a = rows[i];
            out.push(a);
            proof {
                let u = rows@.unref();
                assert(u[i as int] == *a);
                assert(u.take(i + 1) =~= u.take(i as int).push(u[i as int]));
                assert(out@.unref() =~= before.push(*a));
                assert(out@.unref() =~= rows@.unref().take(i + 1));
            }
            i = i + 1;
        }
        proof {
            if limit >= rows.len() {
                assert(rows@.unref().take(n as int) =~= rows@.unref());
            }
        }
        out
    }

    pub fn settled_has_more(&self) -> (r: bool)
        ensures
            r == (self.settled_rows().len() > self.settled_visible_limit),
    {
        self.settled_atoms().len() > self.settled_visible_limit
    }

    pub fn show_more_settled(&mut self)
        requires
            old(self).settled_visible_limit + SETTLED_PAGE_SIZE <= usize::MAX,
        ensures
            *final(self) == (SidebarViewModel {
                settled_visible_limit: (old(self).settled_visible_limit + SETTLED_PAGE_SIZE) as usize,
                ..*old(self)
            }),
    {
        self.settled_visible_limit = self.settled_visible_limit + SETTLED_PAGE_SIZE;
    }
}

fn shelf_label_string(name: &str, expanded: bool, count: usize) -> (r: String)
    ensures
        r@ == shelf_label(name@, expanded, count as nat),
{
    let mut s = String::from_str(name);
    if !expanded {
        s.append(" (");
        let digits = decimal_string(count);
        s.append(digits.as_str());
        s.append(")");
        assert(s@ =~= name@ + " ("@ + decimal(count as nat) + ")"@);
    }
    s
}

impl SidebarViewModel {
    pub fn pinned_label(&self) -> (r: String)
        ensures
            r@ == shelf_label("Pinned"@, self.pinned_expanded, self.pinned_rows().len()),
    {
        let count = self.pinned_atoms().len();
        shelf_label_string("Pinned", self.pinned_expanded, count)
    }

    pub fn settled_label(&self) -> (r: String)
        ensures
            r@ == shelf_label("Settled"@, self.settled_expanded, self.settled_rows().len()),
    {
        let count = self.settled_atoms().len();
        shelf_label_string("Settled", self.settled_expanded, count)
    }

    pub fn archived_label(&self) -> (r: String)
        ensures
            r@ == shelf_label("Archived"@, self.archived_expanded, self.archived_rows().len()),
    {
        let count = self.archived_atoms().len();
        shelf_label_string("Archived", self.archived_expanded, count)
    }

    pub fn is_active(&self, atom: &DemoAtom) -> (r: bool)
        ensures
            r == (atom.id@ == self.active_atom_id@),
    {
        atom.id == self.active_atom_id
    }

    pub fn is_selected(&self, atom: &DemoAtom) -> (r: bool)
        ensures
            r == self.selected_atom_ids@.contains(atom.id@),
    {
        self.selected_atom_ids.contains(atom.id.as_str())
    }

    pub fn is_renaming(&self, atom: &DemoAtom) -> (r: bool)
        ensures
            r == (self.renaming_atom_id matches Some(id) && id@ == atom.id@),
    {
        match &self.renaming_atom_id {
            Some(id) => *id == atom.id,
            None => false,
        }
    }

    pub fn begin_rename(&mut self, atom_id: &str)
        ensures
            final(self).renaming_atom_id matches Some(id) && id@ == atom_id@,
            *final(self) == (SidebarViewModel {
                renaming_atom_id: final(self).renaming_atom_id,
                ..*old(self)
            }),
    {
        self.renaming_atom_id = Some(atom_id.to_owned());
    }

    /// Ends a rename: a title that is not blank becomes the atom's display
    /// title, trimmed; a blank one leaves the title as it was.
    pub fn commit_rename(&mut self, atom_id: &str, title: String)
        ensures
            title_views(final(self).display_title_overrides@) == if is_blank(title@) {
                title_views(old(self).display_title_overrides@)
            } else {
                title_views(old(self).display_title_overrides@).insert(atom_id@, trim(title@))
            },
            *final(self) == (SidebarViewModel {
                display_title_overrides: final(self).display_title_overrides,
                renaming_atom_id: None,
                ..*old(self)
            }),
    {
        let trimmed = trim_str(title.as_str());
        if trimmed.unicode_len() != 0 {
            let value = trimmed.to_owned();
            self.display_title_overrides.insert(atom_id, value);
            proof {
                assert(title_views(self.display_title_overrides@) =~= title_views(
                    old(self).display_title_overrides@,
                ).insert(atom_id@, trim(title@)));
            }
        }
        self.renaming_atom_id = None;
    }

    pub fn cancel_rename(&mut self)
        ensures
            *final(self) == (SidebarViewModel { renaming_atom_id: None, ..*old(self) }),
    {
        self.renaming_atom_id = None;
    }

    pub fn renaming_title(&self, atom: &DemoAtom) -> (r: String)
        ensures
            r@ == self.title_of(*atom),
    {
        self.display_title(atom)
    }

    pub fn should_recede(&self, atom: &DemoAtom) -> (r: bool)
        ensures
            r == self.recedes(*atom),
    {
        if self.is_active(atom) || self.is_selected(atom) {
            return false;
        }
        if self.is_archived(atom) || self.effective_shelf(atom) == AtomShelf::Settled {
            return true;
        }
        if atom.is_unread || atom.is_woke {
            return false;
        }
        match atom.status {
            AtomStatus::Ready | AtomStatus::Working | AtomStatus::Monitoring | AtomStatus::Approval
            | AtomStatus::Input => true,
            _ => false,
        }
    }

    pub fn ordered_visible_ids(&self) -> (r: Vec<String>)
        ensures
            views(r@) == self.visible_ids(),
    {
        let mut ids: Vec<String> = Vec::new();
        if self.draft_visible {
            ids.push(DRAFT_ID.to_owned());
        }
        let ghost first = views(ids@);
        if self.pinned_expanded {
            let rows = self.pinned_atoms();
            extend_ids(&mut ids, &rows);
        }
        let active = self.active_atoms();
        extend_ids(&mut ids, &active);
        if self.settled_expanded {
            let rows = self.settled_visible();
            extend_ids(&mut ids, &rows);
        }
        proof {
            assert(first =~= (if self.draft_visible {
                seq![DRAFT_ID@]
            } else {
                Seq::empty()
            }));
            assert(views(ids@) =~= self.visible_ids());
        }
        ids
    }
}

impl SidebarViewModel {
    /// Makes `atom_id` the active row and the whole selection, ending any rename.
    pub fn activate_atom(&mut self, atom_id: &str)
        ensures
            final(self).active_atom_id@ == atom_id@,
            final(self).selected_atom_ids@ == Set::<Seq<char>>::empty().insert(atom_id@),
            final(self).selected_atom_ids.order() == seq![atom_id@],
            *final(self) == (SidebarViewModel {
                renaming_atom_id: None,
                active_atom_id: final(self).active_atom_id,
                selected_atom_ids: final(self).selected_atom_ids,
                ..*old(self)
            }),
    {
        self.renaming_atom_id = None;
        self.active_atom_id = atom_id.to_owned();
        self.selected_atom_ids.clear();
        self.selected_atom_ids.insert(atom_id);
        proof {
            assert(self.selected_atom_ids.order() =~= seq![atom_id@]);
        }
    }

    /// Toggles `atom_id` in the selection; a range toggle instead selects
    /// every visible row from the selection anchor to `atom_id`.
    pub fn toggle_atom_selection(&mut self, atom_id: &str, range_select: bool)
        ensures
            final(self).selected_atom_ids@ == old(self).toggled_selection(atom_id@, range_select),
            *final(self) == (SidebarViewModel {
                selected_atom_ids: final(self).selected_atom_ids,
                ..*old(self)
            }),
    {
        if range_select {
            let ordered = self.ordered_visible_ids();
            let anchor: String = match self.selected_atom_ids.first() {
                Some(s) => s.clone(),
                None => self.active_atom_id.clone(),
            };
            let from = position(&ordered, anchor.as_str());
            let to = position(&ordered, atom_id);
            match (from, to) {
                (Some(f), Some(t)) => {
                    proof {
                        lemma_first_index(views(ordered@), anchor@);
                        lemma_first_index(views(ordered@), atom_id@);
                        assert(views(ordered@).len() == ordered@.len());
                    }
                    let (start, end) = if f <= t {
                        (f, t)
                    } else {
                        (t, f)
                    };
                    let ghost base = self.selected_atom_ids@;
                    let mut k = start;
                    while k <= end
                        invariant
                            start <= k <= end + 1,
                            end < ordered.len(),
                            base == old(self).selected_atom_ids@,
                            self.selected_atom_ids@ == base.union(
                                id_span(views(ordered@), start as int, k as int),
                            ),
                            *self == (SidebarViewModel {
                                selected_atom_ids: self.selected_atom_ids,
                                ..*old(self)
                            }),
                        decreases end + 1 - k,
                    {
                        self.selected_atom_ids.insert(ordered[k].as_str());
                        proof {
                            let o = views(ordered@);
                            assert(o[k as int] == ordered@[k as int]@);
                            assert(id_span(o, start as int, k + 1) =~= id_span(
                                o,
                                start as int,
                                k as int,
                            ).insert(o[k as int]));
                            assert(self.selected_atom_ids@ =~= base.union(
                                id_span(o, start as int, k + 1),
                            ));
                        }
                        k = k + 1;
                    }
                    return;
                },
                _ => {},
            }
        }
        if self.selected_atom_ids.contains(atom_id) {
            self.selected_atom_ids.remove(atom_id);
        } else {
            self.selected_atom_ids.insert(atom_id);
        }
    }

    fn shelf_for_id(&self, atom_id: &str) -> (r: AtomShelf)
        ensures
            r == self.id_shelf(atom_id@),
    {
        if str_eq(atom_id, DRAFT_ID) {
            return AtomShelf::Active;
        }
        match self.find_atom(atom_id) {
            Some(k) => self.effective_shelf(&self.atoms[k]),
            None => AtomShelf::Active,
        }
    }

    fn shelf_order_slice(&self, atom_id: &str) -> (r: &[String])
        ensures
            r@ == self.move_order(atom_id@)@,
    {
        if self.archived_atom_ids.contains(atom_id) {
            return self.archived_order.as_slice();
        }
        match self.shelf_for_id(atom_id) {
            AtomShelf::Pinned => self.pinned_order.as_slice(),
            AtomShelf::Active => self.active_order.as_slice(),
            AtomShelf::Settled => self.settled_order.as_slice(),
        }
    }

    fn shelf_order_mut(&mut self, shelf: AtomShelf) -> (r: &mut Vec<String>)
        ensures
            *r == old(self).order_of(shelf),
            *final(self) == old(self).with_order(shelf, *final(r)),
    {
        match shelf {
            AtomShelf::Pinned => &mut self.pinned_order,
            AtomShelf::Active => &mut self.active_order,
            AtomShelf::Settled => &mut self.settled_order,
        }
    }

    /// Whether dragging `dragged_id` onto `target_id` may reorder them: two
    /// different rows that are both archived or on the same shelf.
    pub fn can_reorder_atoms(&self, dragged_id: &str, target_id: &str) -> (r: bool)
        ensures
            r == (dragged_id@ != target_id@ && ((self.archived_atom_ids@.contains(dragged_id@)
                && self.archived_atom_ids@.contains(target_id@)) || self.id_shelf(dragged_id@)
                == self.id_shelf(target_id@))),
    {
        if str_eq(dragged_id, target_id) {
            return false;
        }
        if self.archived_atom_ids.contains(dragged_id) && self.archived_atom_ids.contains(target_id) {
            return true;
        }
        self.shelf_for_id(dragged_id) == self.shelf_for_id(target_id)
    }

    /// Drops `dragged_id` next to `target_id` (after it when `insert_after`).
    pub fn reorder_atom(&mut self, dragged_id: &str, target_id: &str, insert_after: bool)
        ensures
            old(self).reordered(*final(self), dragged_id@, target_id@, insert_after),
    {
        if str_eq(dragged_id, target_id) {
            return;
        }
        if self.archived_atom_ids.contains(dragged_id) && self.archived_atom_ids.contains(target_id) {
            reorder_ids(&mut self.archived_order, dragged_id, target_id, insert_after);
            return;
        }
        let dragged_shelf = self.shelf_for_id(dragged_id);
        let target_shelf = self.shelf_for_id(target_id);
        if dragged_shelf != target_shelf {
            return;
        }
        let order = self.shelf_order_mut(dragged_shelf);
        reorder_ids(order, dragged_id, target_id, insert_after);
    }

    /// Whether moving `atom_id` by `delta` places stays inside its list.
    pub fn can_move_atom(&self, atom_id: &str, delta: isize) -> (r: bool)
        requires
            self.move_delta_fits(atom_id@, delta as int),
        ensures
            r == match first_index(views(self.move_order(atom_id@)@), atom_id@) {
                Some(p) => 0 <= p + delta < self.move_order(atom_id@).len(),
                None => false,
            },
    {
        let order = self.shelf_order_slice(atom_id);
        let ghost v = self.move_order(atom_id@);
        let mut i: usize = 0;
        while i < order.len()
            invariant
                order@ == v@,
                v == self.move_order(atom_id@),
                i <= order@.len(),
                first_index(views(v@), atom_id@) == crate::id_list::first_index_from(
                    views(v@),
                    atom_id@,
                    i as int,
                ),
            decreases order@.len() - i,
        {
            if str_eq(order[i].as_str(), atom_id) {
                proof {
                    assert(views(v@)[i as int] == atom_id@);
                    assert(crate::id_list::first_index_from(views(v@), atom_id@, i as int) == Some(
                        i as int,
                    ));
                }
                let new_pos: i128 = i as i128 + delta as i128;
                return new_pos >= 0 && new_pos < order.len() as i128;
            }
            i = i + 1;
        }
        false
    }

    /// Moves `atom_id` by `delta` places within the list that holds it,
    /// stopping at either end.
    pub fn move_atom(&mut self, atom_id: &str, delta: isize)
        requires
            old(self).move_delta_fits(atom_id@, delta as int),
        ensures
            old(self).moved(*final(self), atom_id@, delta as int),
    {
        if self.archived_atom_ids.contains(atom_id) {
            let pos = position(&self.archived_order, atom_id);
            if let Some(pos) = pos {
                proof {
                    lemma_first_index(views(self.archived_order@), atom_id@);
                }
                let last: i128 = self.archived_order.len() as i128 - 1;
                let wanted: i128 = pos as i128 + delta as i128;
                let new_pos: i128 = if wanted < 0 {
                    0
                } else if wanted > last {
                    last
                } else {
                    wanted
                };
                if new_pos as usize != pos {
                    move_within(&mut self.archived_order, pos, new_pos as usize);
                }
            }
            return;
        }
        let shelf = self.shelf_for_id(atom_id);
        let order = self.shelf_order_mut(shelf);
        let pos = position(order, atom_id);
        if let Some(pos) = pos {
            proof {
                lemma_first_index(views(order@), atom_id@);
            }
            let last: i128 = order.len() as i128 - 1;
            let wanted: i128 = pos as i128 + delta as i128;
            let new_pos: i128 = if wanted < 0 {
                0
            } else if wanted > last {
                last
            } else {
                wanted
            };
            if new_pos as usize != pos {
                move_within(order, pos, new_pos as usize);
            }
        }
    }
}



impl SidebarViewModel {
    /// Which rows a shelf lists depends only on the catalog, the search, the
    /// scope, the shelf overrides and the archive.
    pub proof fn lemma_rows_depend_on_filters(a: Self, b: Self, order: Seq<String>, shelf: AtomShelf)
        requires
            a.atoms == b.atoms,
            a.search_query == b.search_query,
            a.project_scope == b.project_scope,
            a.atom_shelf_overrides == b.atom_shelf_overrides,
            a.archived_atom_ids == b.archived_atom_ids,
        ensures
            a.shelf_rows(order, shelf) == b.shelf_rows(order, shelf),
            a.searching() == b.searching(),
    {
        assert((|id: String| a.shelf_row(id, shelf)) =~= (|id: String| b.shelf_row(id, shelf)));
    }
}

/// Filtering with `filter_map` never lengthens a sequence.
pub proof fn lemma_filter_map_len<A, B>(s: Seq<A>, f: spec_fn(A) -> Option<B>)
    ensures
        s.filter_map(f).len() <= s.len(),
    decreases s.len(),
{
    if s.len() > 0 {
        lemma_filter_map_len(s.drop_last(), f);
    }
}

/// The first row in `rows` with id `id`.
fn row_position(rows: &Vec<&DemoAtom>, id: &str) -> (r: Option<usize>)
    ensures
        match r {
            Some(k) => first_index(row_ids(rows@.unref()), id@) == Some(k as int),
            None => first_index(row_ids(rows@.unref()), id@) is None,
        },
{
    let ghost ids = row_ids(rows@.unref());
    let mut i: usize = 0;
    while i < rows.len()
        invariant
            i <= rows.len(),
            ids == row_ids(rows@.unref()),
            first_index(ids, id@) == crate::id_list::first_index_from(ids, id@, i as int),
        decreases rows.len() - i,
    {
        if str_eq(rows[i].id.as_str(), id) {
            proof {
                assert(ids[i as int] == id@);
            }
            return Some(i);
        }
        i = i + 1;
    }
    None
}

impl SidebarViewModel {
    /// Hides the draft row; an active draft hands activation to the first
    /// active row (or `active-1` when the shelf is empty).
    pub fn discard_draft(&mut self)
        ensures
            old(self).draft_discarded(*final(self)),
    {
        self.draft_visible = false;
        retain_other(&mut self.active_order, DRAFT_ID);
        let ghost mid = *self;
        if str_eq(self.active_atom_id.as_str(), DRAFT_ID) {
            let rows = self.active_atoms();
            let next = if rows.len() > 0 {
                proof {
                    assert(rows@.unref()[0] == *rows@[0]);
                }
                rows[0].id.clone()
            } else {
                "active-1".to_owned()
            };
            proof {
                assert(next@ == if mid.active_rows().len() > 0 {
                    mid.active_rows()[0].id@
                } else {
                    "active-1"@
                });
            }
            self.active_atom_id = next;
        }
        self.selected_atom_ids.remove(DRAFT_ID);
        proof {
            Self::lemma_rows_depend_on_filters(*self, mid, self.active_order@, AtomShelf::Active);
            assert(self.active_rows() == mid.active_rows());
        }
    }

    /// Shows the draft row again, at the top of the active list.
    pub fn show_draft(&mut self)
        ensures
            old(self).draft_shown(*final(self)),
    {
        self.draft_visible = true;
        if !contains_id(&self.active_order, DRAFT_ID) {
            self.active_order.insert(0, DRAFT_ID.to_owned());
            proof {
                assert(views(self.active_order@) =~= seq![DRAFT_ID@] + views(old(self).active_order@));
            }
        }
    }

    /// Opens a search hit: reveals it, activates it, and clears the search.
    pub fn activate_from_search(&mut self, atom_id: &str)
        requires
            old(self).settled_order.len() + SETTLED_PAGE_SIZE <= usize::MAX,
        ensures
            final(self).settled_visible_limit == old(self).revealed_limit(atom_id@),
            final(self).active_atom_id@ == atom_id@,
            final(self).selected_atom_ids@ == Set::<Seq<char>>::empty().insert(atom_id@),
            final(self).search_query@.len() == 0,
            *final(self) == (SidebarViewModel {
                settled_visible_limit: final(self).settled_visible_limit,
                renaming_atom_id: None,
                active_atom_id: final(self).active_atom_id,
                selected_atom_ids: final(self).selected_atom_ids,
                search_query: final(self).search_query,
                ..*old(self)
            }),
    {
        self.prepare_atom_reveal(atom_id);
        self.activate_atom(atom_id);
        self.clear_search();
    }

    /// Expands settled pagination when needed; shelf expand animation is handled by the panel.
    pub fn prepare_atom_reveal(&mut self, atom_id: &str)
        requires
            old(self).settled_order.len() + SETTLED_PAGE_SIZE <= usize::MAX,
        ensures
            final(self).settled_visible_limit == old(self).revealed_limit(atom_id@),
            *final(self) == (SidebarViewModel {
                settled_visible_limit: final(self).settled_visible_limit,
                ..*old(self)
            }),
    {
        if self.archived_atom_ids.contains(atom_id) {
            return;
        }
        if self.shelf_for_id(atom_id) == AtomShelf::Settled {
            self.reveal_settled_atom(atom_id);
        }
    }

    /// The collapsible shelf to expand so that `atom_id` can be seen, if any.
    pub fn reveal_shelf_target(&self, atom_id: &str) -> (r: Option<RevealShelf>)
        ensures
            r == if self.archived_atom_ids@.contains(atom_id@) {
                Some(RevealShelf::Archived)
            } else {
                match self.id_shelf(atom_id@) {
                    AtomShelf::Pinned => Some(RevealShelf::Pinned),
                    AtomShelf::Settled => Some(RevealShelf::Settled),
                    AtomShelf::Active => None,
                }
            },
    {
        if self.archived_atom_ids.contains(atom_id) {
            return Some(RevealShelf::Archived);
        }
        match self.shelf_for_id(atom_id) {
            AtomShelf::Pinned => Some(RevealShelf::Pinned),
            AtomShelf::Settled => Some(RevealShelf::Settled),
            AtomShelf::Active => None,
        }
    }

    fn reveal_settled_atom(&mut self, atom_id: &str)
        requires
            old(self).settled_order.len() + SETTLED_PAGE_SIZE <= usize::MAX,
        ensures
            final(self).settled_visible_limit == match first_index(
                row_ids(old(self).settled_rows()),
                atom_id@,
            ) {
                Some(p) => page_up(old(self).settled_visible_limit as int, p + 1),
                None => old(self).settled_visible_limit as int,
            },
            *final(self) == (SidebarViewModel {
                settled_visible_limit: final(self).settled_visible_limit,
                ..*old(self)
            }),
    {
        let rows = self.settled_atoms();
        let settled_len = rows.len();
        let found = row_position(&rows, atom_id);
        proof {
            lemma_first_index(row_ids(rows@.unref()), atom_id@);
            assert(row_ids(rows@.unref()).len() == rows@.len());
            if !self.searching() {
                lemma_filter_map_len(
                    self.settled_order@,
                    |id: String| self.shelf_row(id, AtomShelf::Settled),
                );
            }
        }
        if let Some(pos) = found {
            let needed = pos + 1;
            if self.settled_visible_limit < needed {
                while self.settled_visible_limit < needed && settled_len
                    > self.settled_visible_limit
                    invariant
                        needed <= settled_len <= old(self).settled_order.len(),
                        old(self).settled_order.len() + SETTLED_PAGE_SIZE <= usize::MAX,
                        page_up(self.settled_visible_limit as int, needed as int) == page_up(
                            old(self).settled_visible_limit as int,
                            needed as int,
                        ),
                        *self == (SidebarViewModel {
                            settled_visible_limit: self.settled_visible_limit,
                            ..*old(self)
                        }),
                    decreases if self.settled_visible_limit < needed {
                        needed - self.settled_visible_limit
                    } else {
                        0
                    },
                {
                    self.settled_visible_limit = self.settled_visible_limit + SETTLED_PAGE_SIZE;
                }
                if self.settled_visible_limit < needed {
                    self.settled_visible_limit = settled_len;
                }
            }
        }
    }

    fn remove_from_shelf_orders(&mut self, atom_id: &str)
        ensures
            views(final(self).pinned_order@) == without(views(old(self).pinned_order@), atom_id@),
            views(final(self).active_order@) == without(views(old(self).active_order@), atom_id@),
            views(final(self).settled_order@) == without(views(old(self).settled_order@), atom_id@),
            views(final(self).archived_order@) == without(views(old(self).archived_order@), atom_id@),
            *final(self) == (SidebarViewModel {
                pinned_order: final(self).pinned_order,
                active_order: final(self).active_order,
                settled_order: final(self).settled_order,
                archived_order: final(self).archived_order,
                ..*old(self)
            }),
    {
        retain_other(&mut self.pinned_order, atom_id);
        retain_other(&mut self.active_order, atom_id);
        retain_other(&mut self.settled_order, atom_id);
        retain_other(&mut self.archived_order, atom_id);
    }

    fn append_to_shelf_order(&mut self, atom_id: &str, shelf: AtomShelf)
        ensures
            views(final(self).order_of(shelf)@) == if views(old(self).order_of(shelf)@).contains(
                atom_id@,
            ) {
                views(old(self).order_of(shelf)@)
            } else {
                views(old(self).order_of(shelf)@).push(atom_id@)
            },
            *final(self) == old(self).with_order(shelf, final(self).order_of(shelf)),
    {
        let order = self.shelf_order_mut(shelf);
        push_unique(order, atom_id);
    }

    fn move_atom_to_shelf(&mut self, atom_id: &str, shelf: AtomShelf)
        ensures
            old(self).placed_on_shelf(*final(self), atom_id@, shelf),
    {
        self.remove_from_shelf_orders(atom_id);
        self.atom_shelf_overrides.insert(atom_id, shelf);
        proof {
            lemma_without_contains(views(old(self).order_of(shelf)@), atom_id@, atom_id@);
        }
        self.append_to_shelf_order(atom_id, shelf);
    }

    /// Moves `atom_id` to the settled shelf.
    pub fn settle_atom(&mut self, atom_id: &str)
        ensures
            old(self).placed_on_shelf(*final(self), atom_id@, AtomShelf::Settled),
    {
        self.move_atom_to_shelf(atom_id, AtomShelf::Settled);
    }

    /// Moves `atom_id` back to the active shelf, unless it is archived.
    pub fn unsettle_atom(&mut self, atom_id: &str)
        ensures
            if old(self).archived_atom_ids@.contains(atom_id@) {
                *final(self) == *old(self)
            } else {
                old(self).placed_on_shelf(*final(self), atom_id@, AtomShelf::Active)
            },
    {
        if self.archived_atom_ids.contains(atom_id) {
            return;
        }
        self.move_atom_to_shelf(atom_id, AtomShelf::Active);
    }

    /// Moves `atom_id` to the pinned shelf, unless it is archived.
    pub fn pin_atom(&mut self, atom_id: &str)
        ensures
            if old(self).archived_atom_ids@.contains(atom_id@) {
                *final(self) == *old(self)
            } else {
                old(self).placed_on_shelf(*final(self), atom_id@, AtomShelf::Pinned)
            },
    {
        if self.archived_atom_ids.contains(atom_id) {
            return;
        }
        self.move_atom_to_shelf(atom_id, AtomShelf::Pinned);
    }

    /// Moves `atom_id` back to the active shelf, unless it is archived.
    pub fn unpin_atom(&mut self, atom_id: &str)
        ensures
            if old(self).archived_atom_ids@.contains(atom_id@) {
                *final(self) == *old(self)
            } else {
                old(self).placed_on_shelf(*final(self), atom_id@, AtomShelf::Active)
            },
    {
        if self.archived_atom_ids.contains(atom_id) {
            return;
        }
        self.move_atom_to_shelf(atom_id, AtomShelf::Active);
    }

    /// Archives `atom_id` (see [`Self::archived_to`]).
    pub fn archive_atom(&mut self, atom_id: &str)
        ensures
            old(self).archived_to(*final(self), atom_id@),
    {
        self.remove_from_shelf_orders(atom_id);
        self.archived_atom_ids.insert(atom_id);
        proof {
            lemma_without_contains(views(old(self).archived_order@), atom_id@, atom_id@);
        }
        push_unique(&mut self.archived_order, atom_id);
        self.selected_atom_ids.remove(atom_id);
        let renamed = match &self.renaming_atom_id {
            Some(id) => str_eq(id.as_str(), atom_id),
            None => false,
        };
        if renamed {
            self.renaming_atom_id = None;
        }
        if str_eq(self.active_atom_id.as_str(), atom_id) {
            self.active_atom_id = DRAFT_ID.to_owned();
        }
    }

    /// Takes `atom_id` out of the archive and back onto the active list.
    pub fn unarchive_atom(&mut self, atom_id: &str)
        ensures
            old(self).unarchived_to(*final(self), atom_id@),
    {
        self.archived_atom_ids.remove(atom_id);
        retain_other(&mut self.archived_order, atom_id);
        push_unique(&mut self.active_order, atom_id);
    }
}

} // verus!
