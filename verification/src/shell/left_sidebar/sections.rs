//! Which parts of the sidebar list show: search results, the draft, the
//! pinned divider, the empty state, and the settled shelf's header, rows and
//! show-more button.

use vstd::prelude::*;

use super::state::SidebarViewModel;

verus! {

/// The parts of the sidebar list that show.
#[derive(Clone, Copy, Debug, PartialEq, Eq, Structural)]
pub struct SidebarSections {
    /// A search is in progress: its results replace every other part.
    pub search_results: bool,
    pub draft: bool,
    pub pinned_divider: bool,
    pub empty_state: bool,
    pub settled_header: bool,
    pub settled_rows: bool,
    pub show_more: bool,
}

/// The parts that show: with a search, only its results; otherwise the
/// draft when visible, the pinned divider after a non-empty pinned list, the
/// empty state only when every list is empty, the settled header when the
/// shelf has rows, its rows when expanded, and show-more when expanded with
/// rows beyond the page.
pub open spec fn sections_for(
    searching: bool,
    draft_visible: bool,
    pinned_count: nat,
    active_count: nat,
    settled_count: nat,
    settled_expanded: bool,
    settled_has_more: bool,
) -> SidebarSections {
    if searching {
        SidebarSections {
            search_results: true,
            draft: false,
            pinned_divider: false,
            empty_state: false,
            settled_header: false,
            settled_rows: false,
            show_more: false,
        }
    } else {
        SidebarSections {
            search_results: false,
            draft: draft_visible,
            pinned_divider: pinned_count > 0,
            empty_state: pinned_count == 0 && active_count == 0 && settled_count == 0,
            settled_header: settled_count > 0,
            settled_rows: settled_expanded,
            show_more: settled_expanded && settled_has_more,
        }
    }
}

/// Which parts of the sidebar list show, from the list sizes and flags.
pub fn sidebar_sections(
    searching: bool,
    draft_visible: bool,
    pinned_count: usize,
    active_count: usize,
    settled_count: usize,
    settled_expanded: bool,
    settled_has_more: bool,
) -> (r: SidebarSections)
    ensures
        r == sections_for(
            searching,
            draft_visible,
            pinned_count as nat,
            active_count as nat,
            settled_count as nat,
            settled_expanded,
            settled_has_more,
        ),
{
    if searching {
        return SidebarSections {
            search_results: true,
            draft: false,
            pinned_divider: false,
            empty_state: false,
            settled_header: false,
            settled_rows: false,
            show_more: false,
        };
    }
    SidebarSections {
        search_results: false,
        draft: draft_visible,
        pinned_divider: pinned_count > 0,
        empty_state: pinned_count == 0 && active_count == 0 && settled_count == 0,
        settled_header: settled_count > 0,
        settled_rows: settled_expanded,
        show_more: settled_expanded && settled_has_more,
    }
}

impl SidebarViewModel {
    /// Which parts of the sidebar list show for the current state.
    pub fn list_sections(&self) -> (r: SidebarSections)
        ensures
            r == sections_for(
                self.searching(),
                self.draft_visible,
                self.pinned_rows().len(),
                self.active_rows().len(),
                self.settled_rows().len(),
                self.settled_expanded,
                self.settled_rows().len() > self.settled_visible_limit,
            ),
    {
        let searching = self.is_searching();
        let pinned = self.pinned_atoms();
        let active = self.active_atoms();
        let settled = self.settled_atoms();
        proof {
            assert(pinned@.unref().len() == pinned@.len());
            assert(active@.unref().len() == active@.len());
            assert(settled@.unref().len() == settled@.len());
        }
        sidebar_sections(
            searching,
            self.draft_visible,
            pinned.len(),
            active.len(),
            settled.len(),
            self.settled_expanded,
            settled.len() > self.settled_visible_limit,
        )
    }
}

} // verus!
