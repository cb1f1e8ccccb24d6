//! The dock layout: the version it is saved under, how its panels are
//! counted, and when a saved layout is restored or replaced by the default.

use vstd::prelude::*;

use crate::text::str_eq;

verus! {

/// Version stamped on saved dock layouts; other versions are not loaded.
pub const DOCK_LAYOUT_VERSION: usize = 9;

/// Minimum panels per edge dock tab group in the default layout.
pub const EDGE_DOCK_TAB_COUNT: usize = 2;

/// Panel name of the center workspace panel.
pub const MAIN_STUB_PANEL: &'static str = "main-stub";

/// A dock layout item by the names of its panels: a single panel, a tab
/// group, a split of further items, or a tile area.
#[derive(Debug)]
pub enum DockTree {
    Panel(String),
    Tabs(Vec<String>),
    Split(Vec<DockTree>),
    Tiles(Vec<String>),
}

/// Whether a tab group's panel names include the center workspace panel.
pub open spec fn names_have_main(names: Seq<String>) -> bool {
    exists|i: int| 0 <= i < names.len() && (#[trigger] names[i])@ == MAIN_STUB_PANEL@
}

/// Whether an item holds a center workspace panel somewhere (tiles never count).
pub open spec fn tree_has_main(t: DockTree) -> bool
    decreases t, 0nat,
{
    match t {
        DockTree::Panel(name) => name@ == MAIN_STUB_PANEL@,
        DockTree::Tabs(names) => names_have_main(names@),
        DockTree::Split(items) => forest_has_main(items@, items@.len()),
        DockTree::Tiles(_) => false,
    }
}

/// Whether one of the first `n` items holds a center workspace panel.
pub open spec fn forest_has_main(ts: Seq<DockTree>, n: nat) -> bool
    decreases ts, n,
{
    if n == 0 || n > ts.len() {
        false
    } else {
        forest_has_main(ts, (n - 1) as nat) || tree_has_main(ts[n - 1])
    }
}

/// The number of leaf panels under an item.
pub open spec fn tree_count(t: DockTree) -> nat
    decreases t, 0nat,
{
    match t {
        DockTree::Panel(_) => 1,
        DockTree::Tabs(names) => names@.len(),
        DockTree::Split(items) => forest_count(items@, items@.len()),
        DockTree::Tiles(names) => names@.len(),
    }
}

/// The number of leaf panels under the first `n` items.
pub open spec fn forest_count(ts: Seq<DockTree>, n: nat) -> nat
    decreases ts, n,
{
    if n == 0 || n > ts.len() {
        0
    } else {
        forest_count(ts, (n - 1) as nat) + tree_count(ts[n - 1])
    }
}

/// A prefix of the items holds no more panels than a longer one.
pub proof fn lemma_forest_count_monotone(ts: Seq<DockTree>, i: nat, n: nat)
    requires
        i <= n <= ts.len(),
    ensures
        forest_count(ts, i) <= forest_count(ts, n),
    decreases n - i,
{
    if i < n {
        lemma_forest_count_monotone(ts, i, (n - 1) as nat);
    }
}

/// Once one of the first `i` items holds a center panel, so do the first `n`.
pub proof fn lemma_forest_has_main_monotone(ts: Seq<DockTree>, i: nat, n: nat)
    requires
        i <= n <= ts.len(),
        forest_has_main(ts, i),
    ensures
        forest_has_main(ts, n),
    decreases n - i,
{
    if i < n {
        lemma_forest_has_main_monotone(ts, i, (n - 1) as nat);
    }
}

/// Whether `name` is the center workspace panel.
fn is_main_stub(name: &String) -> (r: bool)
    ensures
        r == (name@ == MAIN_STUB_PANEL@),
{
    str_eq(name.as_str(), MAIN_STUB_PANEL)
}

/// True when the item holds at least one center workspace panel.
pub fn item_has_main_stub(item: &DockTree) -> (r: bool)
    ensures
        r == tree_has_main(*item),
    decreases item,
{
    match item {
        DockTree::Panel(name) => is_main_stub(name),
        DockTree::Tabs(names) => {
            let mut i: usize = 0;
            while i < names.len()
                invariant
                    *item == DockTree::Tabs(*names),
                    i <= names@.len(),
                    forall|j: int| 0 <= j < i ==> names@[j]@ != MAIN_STUB_PANEL@,
                decreases names@.len() - i,
            {
                if is_main_stub(&names[i]) {
                    assert(names@[i as int]@ == MAIN_STUB_PANEL@);
                    assert(names_have_main(names@));
                    return true;
                }
                i = i + 1;
            }
            false
        },
        DockTree::Split(items) => {
            let mut i: usize = 0;
            while i < items.len()
                invariant
                    *item == DockTree::Split(*items),
                    i <= items@.len(),
                    !forest_has_main(items@, i as nat),
                decreases items@.len() - i,
            {
                proof {
                    assert(decreases_to!(*item => (*item)->Split_0));
                    assert(decreases_to!(*items => items@));
                    assert(decreases_to!(items@ => items@[i as int]));
                }
                if item_has_main_stub(&items[i]) {
                    proof {
                        assert(forest_has_main(items@, (i + 1) as nat));
                        lemma_forest_has_main_monotone(items@, (i + 1) as nat, items@.len());
                    }
                    return true;
                }
                i = i + 1;
            }
            false
        },
        DockTree::Tiles(_) => false,
    }
}

/// Counts leaf panels under a dock item (tabs/split/panel).
pub fn dock_item_panel_count(item: &DockTree) -> (r: usize)
    requires
        tree_count(*item) <= usize::MAX,
    ensures
        r == tree_count(*item),
    decreases item,
{
    match item {
        DockTree::Tabs(names) => names.len(),
        DockTree::Split(items) => {
            let mut total: usize = 0;
            let mut i: usize = 0;
            while i < items.len()
                invariant
                    *item == DockTree::Split(*items),
                    tree_count(*item) <= usize::MAX,
                    i <= items@.len(),
                    total == forest_count(items@, i as nat),
                decreases items@.len() - i,
            {
                proof {
                    assert(decreases_to!(*item => (*item)->Split_0));
                    assert(decreases_to!(*items => items@));
                    assert(decreases_to!(items@ => items@[i as int]));
                    lemma_forest_count_monotone(items@, (i + 1) as nat, items@.len());
                }
                let n = dock_item_panel_count(&items[i]);
                total = total + n;
                i = i + 1;
            }
            total
        },
        DockTree::Panel(_) => 1,
        DockTree::Tiles(names) => names.len(),
    }
}

/// True when the item is a split, the only kind of item whose tab groups
/// can be dragged and dropped.
pub fn dock_item_enables_dnd(item: &DockTree) -> (r: bool)
    ensures
        r == (*item is Split),
{
    match item {
        DockTree::Split(_) => true,
        _ => false,
    }
}

/// How the workspace starts its dock: from the default layout, or by loading
/// the saved one.
#[derive(Debug, Clone, Copy, PartialEq, Eq, Structural)]
pub enum DockRestore {
    ApplyDefault,
    LoadSaved,
}

/// The start plan for a saved layout stamped `saved_version`: nothing saved
/// or a different version starts from the default; the current version is
/// loaded.
pub fn dock_restore_plan(saved_version: Option<Option<usize>>) -> (r: DockRestore)
    ensures
        r == if saved_version == Some(Some(DOCK_LAYOUT_VERSION)) {
            DockRestore::LoadSaved
        } else {
            DockRestore::ApplyDefault
        },
{
    match saved_version {
        None => DockRestore::ApplyDefault,
        Some(version) => match version {
            Some(v) => if v == DOCK_LAYOUT_VERSION {
                DockRestore::LoadSaved
            } else {
                DockRestore::ApplyDefault
            },
            None => DockRestore::ApplyDefault,
        },
    }
}

/// Whether a loaded layout is kept: it loaded, and its center holds a
/// workspace panel; otherwise the default layout replaces it (and is saved).
pub fn keeps_loaded_layout(load_ok: bool, center: &DockTree) -> (r: bool)
    ensures
        r == (load_ok && tree_has_main(*center)),
{
    load_ok && item_has_main_stub(center)
}

/// One of the first `n` items holds the center panel exactly when some item
/// among them does.
proof fn lemma_forest_has_main_any(ts: Seq<DockTree>, n: nat)
    requires
        n <= ts.len(),
    ensures
        forest_has_main(ts, n) <==> exists|j: int| 0 <= j < n && tree_has_main(#[trigger] ts[j]),
    decreases n,
{
    if n > 0 {
        lemma_forest_has_main_any(ts, (n - 1) as nat);
        if exists|j: int| 0 <= j < n && tree_has_main(#[trigger] ts[j]) {
            let j = choose|j: int| 0 <= j < n && tree_has_main(#[trigger] ts[j]);
            if j < n - 1 {
                assert(forest_has_main(ts, (n - 1) as nat));
            }
        }
    }
}

/// Where the center panel is found: a panel is it when named `main-stub`; a
/// tab group holds it when any of its tabs, at whatever position, is named
/// `main-stub`; a split holds it when any of its items does; tiles never
/// count.
pub proof fn law_main_stub_found_by_membership(t: DockTree)
    ensures
        t matches DockTree::Panel(name) ==> (tree_has_main(t) <==> name@ == MAIN_STUB_PANEL@),
        t matches DockTree::Tabs(names) ==> (tree_has_main(t) <==> exists|i: int|
            0 <= i < names@.len() && (#[trigger] names@[i])@ == MAIN_STUB_PANEL@),
        t matches DockTree::Split(items) ==> (tree_has_main(t) <==> exists|j: int|
            0 <= j < items@.len() && tree_has_main(#[trigger] items@[j])),
        t is Tiles ==> !tree_has_main(t),
{
    if let DockTree::Split(items) = t {
        lemma_forest_has_main_any(items@, items@.len());
    }
}

} // verus!
