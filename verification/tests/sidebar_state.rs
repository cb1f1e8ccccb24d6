use opencore_rustroops::shell::left_sidebar::demo_data::{demo_atoms, AtomShelf, DemoAtom, DRAFT_ID};
use opencore_rustroops::shell::left_sidebar::rows::{row_click_action, RowClickAction};
use opencore_rustroops::shell::left_sidebar::sections::{sidebar_sections, SidebarSections};
use opencore_rustroops::shell::left_sidebar::pinned_drag::{AtomDragScope, PinnedDragState};
use opencore_rustroops::shell::left_sidebar::state::{
    demo_draft, FooterBackContext, FooterMode, RevealShelf, SidebarViewModel, SETTLED_PAGE_INITIAL,
    SETTLED_PAGE_SIZE,
};

fn atom<'a>(view: &'a SidebarViewModel, id: &str) -> &'a DemoAtom {
    view.atoms.iter().find(|t| t.id == id).unwrap()
}

fn ids(rows: &[&DemoAtom]) -> Vec<String> {
    rows.iter().map(|t| t.id.clone()).collect()
}

#[test]
fn pin_moves_atom_to_pinned_shelf() {
    let mut view = SidebarViewModel::new("active-1");
    view.pin_atom("active-2");
    assert!(view.pinned_atoms().iter().any(|t| t.id == "active-2"));
    assert!(!view.active_atoms().iter().any(|t| t.id == "active-2"));
}

#[test]
fn unpin_moves_atom_back_to_active_list() {
    let mut view = SidebarViewModel::new("active-1");
    view.unpin_atom("pinned-1");
    assert!(!view.pinned_atoms().iter().any(|t| t.id == "pinned-1"));
    assert!(view.active_atoms().iter().any(|t| t.id == "pinned-1"));
}

#[test]
fn settle_moves_atom_to_settled_shelf() {
    let mut view = SidebarViewModel::new("active-1");
    view.settle_atom("active-2");
    assert!(view.settled_atoms().iter().any(|t| t.id == "active-2"));
    assert!(!view.active_atoms().iter().any(|t| t.id == "active-2"));
}

#[test]
fn unsettle_moves_atom_back_to_active_list() {
    let mut view = SidebarViewModel::new("active-1");
    view.unsettle_atom("settled-1");
    assert!(!view.settled_atoms().iter().any(|t| t.id == "settled-1"));
    assert!(view.active_atoms().iter().any(|t| t.id == "settled-1"));
}

#[test]
fn settled_atoms_always_recede_unless_active_or_selected() {
    let view = SidebarViewModel::new("active-1");
    let failed = atom(&view, "settled-5");
    let woke = atom(&view, "settled-6");
    assert!(view.should_recede(failed));
    assert!(view.should_recede(woke));
}

#[test]
fn can_reorder_atoms_requires_matching_shelf() {
    let view = SidebarViewModel::new("active-1");
    assert!(view.can_reorder_atoms("active-1", "active-2"));
    assert!(!view.can_reorder_atoms("active-1", "pinned-1"));
    assert!(view.can_reorder_atoms("settled-1", "settled-2"));
    assert!(!view.can_reorder_atoms("settled-1", "active-1"));
}

#[test]
fn reorder_settled_moves_atom_within_settled_list() {
    let mut view = SidebarViewModel::new("active-1");
    view.reorder_atom("settled-1", "settled-2", true);
    let order: Vec<_> = view.settled_order.iter().map(|id| id.as_str()).collect();
    assert_eq!(order[0], "settled-2");
    assert_eq!(order[1], "settled-1");
}

#[test]
fn reorder_pinned_moves_atom_relative_to_target() {
    let mut view = SidebarViewModel::new("active-1");
    view.pinned_order = vec!["pinned-1".into(), "pinned-2".into()];
    view.reorder_atom("pinned-1", "pinned-2", true);
    let order: Vec<_> = view.pinned_order.iter().map(|id| id.as_str()).collect();
    assert_eq!(order, ["pinned-2", "pinned-1"]);
}

#[test]
fn reorder_active_moves_atom_within_active_list() {
    let mut view = SidebarViewModel::new("active-1");
    view.discard_draft();
    view.reorder_atom("active-1", "active-2", true);
    let order: Vec<_> = view.active_order.iter().map(|id| id.as_str()).collect();
    assert_eq!(order[0], "active-2");
    assert_eq!(order[1], "active-1");
}

#[test]
fn move_atom_stays_within_settled_shelf_bounds() {
    let mut view = SidebarViewModel::new("active-1");
    view.settled_order = vec!["settled-1".into(), "settled-2".into()];
    assert!(!view.can_move_atom("settled-1", -1));
    assert!(view.can_move_atom("settled-1", 1));
    view.move_atom("settled-1", -1);
    let order: Vec<_> = view.settled_order.iter().map(|id| id.as_str()).collect();
    assert_eq!(order, ["settled-1", "settled-2"]);
    view.move_atom("settled-2", 1);
    let order: Vec<_> = view.settled_order.iter().map(|id| id.as_str()).collect();
    assert_eq!(order, ["settled-1", "settled-2"]);
    view.move_atom("settled-1", 1);
    let order: Vec<_> = view.settled_order.iter().map(|id| id.as_str()).collect();
    assert_eq!(order, ["settled-2", "settled-1"]);
}

#[test]
fn archive_moves_atom_to_archived_shelf() {
    let mut view = SidebarViewModel::new("active-1");
    view.archive_atom("active-2");
    assert!(view.archived_atoms().iter().any(|t| t.id == "active-2"));
    assert!(!view.active_atoms().iter().any(|t| t.id == "active-2"));
}

#[test]
fn unarchive_restores_atom_to_active_list() {
    let mut view = SidebarViewModel::new("active-1");
    view.archive_atom("active-2");
    view.unarchive_atom("active-2");
    assert!(view.archived_atoms().is_empty());
    assert!(view.active_atoms().iter().any(|t| t.id == "active-2"));
}

#[test]
fn archive_removes_atom_from_lists() {
    let mut view = SidebarViewModel::new("active-1");
    view.archive_atom("active-2");
    assert!(!view.active_atoms().iter().any(|t| t.id == "active-2"));
    assert!(view.visible_atoms().iter().all(|t| t.id != "active-2"));
}

#[test]
fn activate_from_search_clears_query_and_prepares_settled_reveal() {
    let mut view = SidebarViewModel::new("active-1");
    view.search_query = "theme".to_string();
    view.settled_expanded = false;
    view.settled_visible_limit = 1;
    view.activate_from_search("settled-1");
    assert_eq!(view.active_atom_id, "settled-1");
    assert!(view.search_query.is_empty());
    assert_eq!(
        view.reveal_shelf_target("settled-1"),
        Some(RevealShelf::Settled)
    );
    assert!(view.settled_visible_limit >= 1);
    assert!(!view.settled_expanded);
}

#[test]
fn commit_rename_updates_display_title() {
    let mut view = SidebarViewModel::new("active-1");
    view.begin_rename("active-1");
    view.commit_rename("active-1", "Renamed atom".to_string());
    assert_eq!(view.display_title(atom(&view, "active-1")), "Renamed atom");
    assert!(view.renaming_atom_id.is_none());
}

#[test]
fn cancel_rename_clears_state() {
    let mut view = SidebarViewModel::new("active-1");
    view.begin_rename("active-1");
    view.cancel_rename();
    assert!(view.renaming_atom_id.is_none());
}

#[test]
fn new_sidebar_partitions_demo_catalog_by_shelf() {
    let view = SidebarViewModel::new("active-1");
    assert_eq!(view.atoms.len(), demo_atoms().len());
    assert_eq!(view.pinned_order, vec!["pinned-1", "pinned-2"]);
    assert_eq!(view.active_order, vec![DRAFT_ID, "active-1", "active-2"]);
    assert_eq!(view.settled_order.len(), 6);
    assert!(view.archived_order.is_empty());
    assert_eq!(view.settled_visible_limit, SETTLED_PAGE_INITIAL);
    assert_eq!(view.footer_mode, FooterMode::Utilities);
    assert!(view.draft_visible);
    assert_eq!(demo_draft().id, DRAFT_ID);
}

#[test]
fn footer_utility_opens_back_mode_and_closes() {
    let mut view = SidebarViewModel::new("active-1");
    view.open_footer_utility(FooterBackContext::Usage);
    assert_eq!(view.footer_mode, FooterMode::Back);
    assert_eq!(view.footer_back_context, Some(FooterBackContext::Usage));
    view.close_footer_utility();
    assert_eq!(view.footer_mode, FooterMode::Utilities);
    assert_eq!(view.footer_back_context, None);
}

#[test]
fn search_filters_by_trimmed_case_insensitive_title() {
    let mut view = SidebarViewModel::new("active-1");
    assert!(!view.is_searching());
    assert!(view.search_results().is_empty());
    view.search_query = "  THEME ".to_string();
    assert!(view.is_searching());
    assert_eq!(ids(&view.search_results()), vec!["active-2"]);
    assert!(view.pinned_atoms().is_empty());
    assert!(view.active_atoms().is_empty());
    assert!(view.settled_atoms().is_empty());
    assert!(view.active_section_ids().is_empty());
    view.search_query = "   ".to_string();
    assert!(!view.is_searching());
    assert_eq!(view.visible_atoms().len(), 10);
    view.clear_search();
    assert!(view.search_query.is_empty());
}

#[test]
fn project_scope_filters_rows_and_names_label() {
    let mut view = SidebarViewModel::new("active-1");
    assert_eq!(view.scoped_label(), "All atoms");
    view.project_scope = Some("t3code".to_string());
    assert_eq!(view.scoped_label(), "t3code");
    assert_eq!(ids(&view.pinned_atoms()), vec!["pinned-2"]);
    assert!(view.active_atoms().is_empty());
    assert_eq!(ids(&view.settled_atoms()), vec!["settled-4", "settled-5", "settled-6"]);
    view.project_scope = Some("missing".to_string());
    assert_eq!(view.scoped_label(), "All atoms");
}

#[test]
fn collapsed_shelf_labels_show_counts() {
    let mut view = SidebarViewModel::new("active-1");
    assert_eq!(view.pinned_label(), "Pinned");
    assert_eq!(view.settled_label(), "Settled");
    assert_eq!(view.archived_label(), "Archived (0)");
    view.pinned_expanded = false;
    view.settled_expanded = false;
    view.archive_atom("active-2");
    assert_eq!(view.pinned_label(), "Pinned (2)");
    assert_eq!(view.settled_label(), "Settled (6)");
    assert_eq!(view.archived_label(), "Archived (1)");
}

#[test]
fn settled_pagination_pages_by_page_size() {
    let mut view = SidebarViewModel::new("active-1");
    view.settled_visible_limit = 2;
    assert_eq!(ids(&view.settled_visible()), vec!["settled-1", "settled-2"]);
    assert!(view.settled_has_more());
    view.show_more_settled();
    assert_eq!(view.settled_visible_limit, 2 + SETTLED_PAGE_SIZE);
    assert_eq!(view.settled_visible().len(), 6);
    assert!(!view.settled_has_more());
}

#[test]
fn reveal_pages_settled_atom_into_view() {
    let mut view = SidebarViewModel::new("active-1");
    view.settled_visible_limit = 1;
    view.prepare_atom_reveal("settled-6");
    assert_eq!(view.settled_visible_limit, 26);
    assert!(view.settled_visible().iter().any(|t| t.id == "settled-6"));
    let mut other = SidebarViewModel::new("active-1");
    other.settled_visible_limit = 1;
    other.prepare_atom_reveal("active-2");
    assert_eq!(other.settled_visible_limit, 1);
}

#[test]
fn reveal_targets_follow_shelves_and_archive() {
    let mut view = SidebarViewModel::new("active-1");
    assert_eq!(view.reveal_shelf_target("pinned-1"), Some(RevealShelf::Pinned));
    assert_eq!(view.reveal_shelf_target("active-1"), None);
    assert_eq!(view.reveal_shelf_target(DRAFT_ID), None);
    assert_eq!(view.reveal_shelf_target("unknown"), None);
    view.archive_atom("pinned-1");
    assert_eq!(view.reveal_shelf_target("pinned-1"), Some(RevealShelf::Archived));
}

#[test]
fn activate_selects_only_the_atom() {
    let mut view = SidebarViewModel::new("active-1");
    view.begin_rename("active-2");
    view.activate_atom("settled-2");
    assert_eq!(view.active_atom_id, "settled-2");
    assert!(view.is_selected(atom(&view, "settled-2")));
    assert!(!view.is_selected(atom(&view, "active-1")));
    assert!(view.is_active(atom(&view, "settled-2")));
    assert!(view.renaming_atom_id.is_none());
}

#[test]
fn toggle_selection_twice_restores_selection() {
    let mut view = SidebarViewModel::new("active-1");
    view.toggle_atom_selection("active-2", false);
    assert!(view.is_selected(atom(&view, "active-2")));
    view.toggle_atom_selection("active-2", false);
    assert!(!view.is_selected(atom(&view, "active-2")));
    assert!(view.selected_atom_ids.is_empty());
}

#[test]
fn range_selection_spans_visible_rows_from_anchor() {
    let mut view = SidebarViewModel::new("active-1");
    assert_eq!(
        view.ordered_visible_ids(),
        vec![
            DRAFT_ID, "pinned-1", "pinned-2", "active-1", "active-2", "settled-1",
            "settled-2", "settled-3", "settled-4", "settled-5", "settled-6"
        ]
    );
    view.activate_atom("pinned-2");
    view.toggle_atom_selection("settled-1", true);
    for id in ["pinned-2", "active-1", "active-2", "settled-1"] {
        assert!(view.is_selected(atom(&view, id)), "{id} should be selected");
    }
    assert!(!view.is_selected(atom(&view, "pinned-1")));
    assert!(!view.is_selected(atom(&view, "settled-2")));
    view.toggle_atom_selection("unknown", true);
    assert!(view.selected_atom_ids.contains("unknown"));
}

#[test]
fn active_section_lists_draft_and_active_rows() {
    let mut view = SidebarViewModel::new("active-1");
    assert_eq!(view.active_section_ids(), vec![DRAFT_ID, "active-1", "active-2"]);
    view.pin_atom("active-1");
    assert_eq!(view.active_section_ids(), vec![DRAFT_ID, "active-2"]);
    view.discard_draft();
    assert_eq!(view.active_section_ids(), vec!["active-2"]);
    assert!(!view.is_draft_active());
}

#[test]
fn discard_active_draft_activates_first_active_row_then_show_restores_it() {
    let mut view = SidebarViewModel::new(DRAFT_ID);
    view.toggle_atom_selection(DRAFT_ID, false);
    assert!(view.is_draft_active());
    assert!(view.is_draft_selected());
    view.discard_draft();
    assert_eq!(view.active_atom_id, "active-1");
    assert!(!view.is_draft_selected());
    assert!(!view.draft_visible);
    view.show_draft();
    assert!(view.draft_visible);
    assert_eq!(view.active_order[0], DRAFT_ID);
    view.show_draft();
    assert_eq!(view.active_order.iter().filter(|id| *id == DRAFT_ID).count(), 1);
}

#[test]
fn discard_draft_falls_back_to_active_one_when_shelf_is_empty() {
    let mut view = SidebarViewModel::new(DRAFT_ID);
    view.settle_atom("active-1");
    view.settle_atom("active-2");
    view.discard_draft();
    assert_eq!(view.active_atom_id, "active-1");
}

#[test]
fn archive_clears_selection_rename_and_activation() {
    let mut view = SidebarViewModel::new("active-2");
    view.activate_atom("active-2");
    view.begin_rename("active-2");
    view.archive_atom("active-2");
    assert_eq!(view.active_atom_id, DRAFT_ID);
    assert!(view.renaming_atom_id.is_none());
    assert!(view.selected_atom_ids.is_empty());
    assert!(view.is_archived(atom(&view, "active-2")));
    assert_eq!(view.archived_order, vec!["active-2"]);
    view.pin_atom("active-2");
    assert!(view.pinned_atoms().iter().all(|t| t.id != "active-2"));
}

#[test]
fn archived_atoms_reorder_and_move_within_archive() {
    let mut view = SidebarViewModel::new("active-1");
    view.archive_atom("active-1");
    view.archive_atom("active-2");
    assert!(view.can_reorder_atoms("active-1", "active-2"));
    view.reorder_atom("active-2", "active-1", false);
    assert_eq!(view.archived_order, vec!["active-2", "active-1"]);
    view.move_atom("active-2", 5);
    assert_eq!(view.archived_order, vec!["active-1", "active-2"]);
    assert!(view.can_move_atom("active-2", -1));
    assert!(!view.can_move_atom("missing", 0));
}

#[test]
fn effective_shelf_and_titles_follow_overrides() {
    let mut view = SidebarViewModel::new("active-1");
    assert_eq!(view.effective_shelf(atom(&view, "active-2")), AtomShelf::Active);
    view.settle_atom("active-2");
    assert_eq!(view.effective_shelf(atom(&view, "active-2")), AtomShelf::Settled);
    view.commit_rename("active-2", "   ".to_string());
    assert_eq!(view.display_title(atom(&view, "active-2")), "Theme transition polish");
    view.begin_rename("active-2");
    assert!(view.is_renaming(atom(&view, "active-2")));
    view.commit_rename("active-2", "  Polish  ".to_string());
    assert_eq!(view.renaming_title(atom(&view, "active-2")), "Polish");
}

#[test]
fn drag_scope_and_drop_indicators() {
    assert_eq!(
        AtomDragScope::from_atom("x", AtomShelf::Pinned, false),
        AtomDragScope::Pinned
    );
    assert_eq!(
        AtomDragScope::from_atom("x", AtomShelf::Pinned, true),
        AtomDragScope::Archived
    );
    assert!(AtomDragScope::Settled.allows_drop(AtomDragScope::Settled));
    assert!(!AtomDragScope::Settled.allows_drop(AtomDragScope::Active));
    let state = PinnedDragState {
        dragging_id: Some("a".to_string()),
        drop_target: Some(("b".to_string(), true)),
    };
    let source = state.for_atom("a");
    assert!(source.is_source && !source.drop_above && !source.drop_below);
    let target = state.for_atom("b");
    assert!(!target.is_source && !target.drop_above && target.drop_below);
    let before = PinnedDragState {
        dragging_id: None,
        drop_target: Some(("b".to_string(), false)),
    };
    assert!(before.for_atom("b").drop_above);
    assert_eq!(before.for_atom("c"), Default::default());
}

#[test]
fn default_view_model_searches_the_demo_catalog() {
    let mut view = SidebarViewModel::default();
    assert_eq!(view.atoms.len(), 10);
    assert_eq!(view.scoped_label(), "All atoms");
    assert_eq!(view.visible_atoms().len(), 10);
    assert!(view.pinned_atoms().is_empty());
    assert!(view.pinned_order.is_empty());
    assert!(!view.draft_visible);
    assert_eq!(view.settled_visible_limit, 0);
    assert_eq!(view.footer_mode, FooterMode::Utilities);
    view.project_scope = Some("t3code".to_string());
    assert_eq!(view.scoped_label(), "t3code");
    assert_eq!(view.visible_atoms().len(), 4);
}

#[test]
fn demo_atoms_carry_their_row_details() {
    let atoms = demo_atoms();
    let first = &atoms[0];
    assert_eq!(first.time_label, "2h");
    assert_eq!(first.branch.as_deref(), Some("feat/shell-dock"));
    assert_eq!(first.pr_number, Some(42));
    assert_eq!(first.diff_insertions, Some(128));
    assert_eq!(first.diff_deletions, Some(24));
    assert_eq!(first.terminal_process_count, 1);
    let last = &atoms[9];
    assert_eq!(last.id, "settled-6");
    assert_eq!(last.time_label, "3w");
    assert_eq!(last.branch, None);
    assert_eq!(last.pr_number, None);
    assert_eq!(last.terminal_process_count, 1);
    assert_eq!(atoms[3].diff_insertions, Some(12));
    assert_eq!(atoms[3].terminal_process_count, 2);
}

#[test]
fn row_clicks_route_by_count_and_shift() {
    assert_eq!(row_click_action(1, false), RowClickAction::Activate);
    assert_eq!(row_click_action(1, true), RowClickAction::SelectRange);
    assert_eq!(row_click_action(2, false), RowClickAction::Ignore);
    assert_eq!(row_click_action(3, true), RowClickAction::Ignore);
    assert_eq!(row_click_action(0, false), RowClickAction::Activate);
}

#[test]
fn list_sections_follow_counts_and_flags() {
    let mut view = SidebarViewModel::new("active-1");
    assert_eq!(
        view.list_sections(),
        SidebarSections {
            search_results: false,
            draft: true,
            pinned_divider: true,
            empty_state: false,
            settled_header: true,
            settled_rows: true,
            show_more: false,
        }
    );
    view.search_query = "dock".to_string();
    assert_eq!(
        view.list_sections(),
        SidebarSections {
            search_results: true,
            draft: false,
            pinned_divider: false,
            empty_state: false,
            settled_header: false,
            settled_rows: false,
            show_more: false,
        }
    );
    let empty = sidebar_sections(false, false, 0, 0, 0, true, false);
    assert!(empty.empty_state);
    assert!(!empty.pinned_divider);
    assert!(!empty.settled_header);
    let more = sidebar_sections(false, true, 0, 1, 30, true, true);
    assert!(more.show_more && more.settled_header && !more.empty_state);
    let collapsed = sidebar_sections(false, true, 0, 1, 30, false, true);
    assert!(!collapsed.show_more && !collapsed.settled_rows && collapsed.settled_header);
}
