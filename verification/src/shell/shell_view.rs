//! Tab strip decisions of the shell view: rename sessions and drop targets.

use vstd::prelude::*;

use crate::id_list::{first_index, first_index_from, move_entry};
use crate::shell::tabs::{tab_ids, ShellTabRecord};
use crate::text::str_eq;

verus! {

/// Whether the tab `tab_id` is the one being renamed.
pub fn tab_is_renaming(renaming_tab_id: Option<&str>, tab_id: &str) -> (r: bool)
    ensures
        r == (renaming_tab_id matches Some(id) && id@ == tab_id@),
{
    match renaming_tab_id {
        Some(id) => str_eq(id, tab_id),
        None => false,
    }
}

/// Where a dragged tab lands, counted in the strip without the dragged chip:
/// the last index for a trailing drop, one less than the target when the chip
/// came from before it, else the target itself.
pub open spec fn drop_index(from: int, target: int, tab_count: int) -> int {
    if target >= tab_count {
        if tab_count > 0 {
            tab_count - 1
        } else {
            0
        }
    } else if from < target {
        if target > 0 {
            target - 1
        } else {
            0
        }
    } else {
        target
    }
}

/// The index a dragged tab chip is inserted at.
pub fn tab_drop_index(from: usize, target: usize, tab_count: usize) -> (r: usize)
    ensures
        r == drop_index(from as int, target as int, tab_count as int),
        tab_count > 0 ==> r < tab_count,
{
    if target >= tab_count {
        return tab_count.saturating_sub(1);
    }
    if from < target {
        target.saturating_sub(1)
    } else {
        target
    }
}

/// The title the workspace header shows for the active tab when no tab
/// carries the active id.
pub open spec fn fallback_tab_title() -> Seq<char> {
    "MAIN"@
}

/// The title of the active tab: that of the first tab whose id is
/// `active_id`, else [`fallback_tab_title`].
pub fn active_tab_title(tabs: &Vec<ShellTabRecord>, active_id: &str) -> (r: String)
    ensures
        r@ == match first_index(tab_ids(tabs@), active_id@) {
            Some(k) => tabs@[k].title@,
            None => fallback_tab_title(),
        },
{
    let mut i: usize = 0;
    while i < tabs.len()
        invariant
            i <= tabs.len(),
            first_index(tab_ids(tabs@), active_id@) == first_index_from(
                tab_ids(tabs@),
                active_id@,
                i as int,
            ),
        decreases tabs.len() - i,
    {
        if str_eq(tabs[i].id.as_str(), active_id) {
            return tabs[i].title.clone();
        }
        i = i + 1;
    }
    "MAIN".to_string()
}

/// A tab dropped on another chip lands right before that chip: in the strip
/// after the move, the dragged tab sits at the drop index and the chip it was
/// dropped on right after it, whichever side it came from. A drop past the
/// last chip puts the dragged tab last.
pub proof fn law_dropped_tab_lands_before_target<A>(s: Seq<A>, from: int, target: int)
    requires
        0 <= from < s.len(),
        0 <= target,
    ensures
        ({
            let r = drop_index(from, target, s.len() as int);
            let m = move_entry(s, from, r);
            &&& target < s.len() && from != target ==> {
                &&& 0 <= r && r + 1 < m.len()
                &&& m[r] == s[from]
                &&& m[r + 1] == s[target]
            }
            &&& target >= s.len() ==> r == s.len() - 1 && m.len() == s.len() && m[r] == s[from]
        }),
{
    let r = drop_index(from, target, s.len() as int);
    let m = move_entry(s, from, r);
    let rest = s.remove(from);
    assert(m == rest.insert(r, s[from]));
    if target < s.len() && from != target {
        if from < target {
            assert(rest[target - 1] == s[target]);
        } else {
            assert(rest[target] == s[target]);
        }
        assert(m[r + 1] == rest[r]);
    }
}

} // verus!
