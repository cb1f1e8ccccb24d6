use opencore_rustroops::shell::left_sidebar::context_menu::{
    build_atom_context_menu, AtomContextMenuState, AtomMenuEntry,
};
use opencore_rustroops::shell::left_sidebar::demo_data::AtomShelf;
use opencore_rustroops::shell::left_sidebar::pinned_drag::{accepts_atom_drop, AtomDragScope};
use opencore_rustroops::shell::left_sidebar::state::SidebarViewModel;

fn state(pinned: bool, settled: bool, archived: bool, up: bool, down: bool) -> AtomContextMenuState {
    AtomContextMenuState {
        is_pinned: pinned,
        is_settled: settled,
        is_archived: archived,
        can_move_up: up,
        can_move_down: down,
    }
}

#[test]
fn active_atom_menu_offers_pin_settle_archive() {
    assert_eq!(
        build_atom_context_menu("Fix dock layout persistence", state(false, false, false, false, true)).entries,
        vec![AtomMenuEntry::Title, AtomMenuEntry::MoveDown, AtomMenuEntry::Separator, AtomMenuEntry::Pin, AtomMenuEntry::Settle, AtomMenuEntry::Archive, AtomMenuEntry::Separator, AtomMenuEntry::Rename]
    );
}

#[test]
fn shelved_and_archived_atom_menus_offer_one_way_back() {
    assert_eq!(
        build_atom_context_menu("Fix dock layout persistence", state(true, false, false, true, true)).entries,
        vec![AtomMenuEntry::Title, AtomMenuEntry::MoveUp, AtomMenuEntry::MoveDown, AtomMenuEntry::Separator, AtomMenuEntry::Unpin, AtomMenuEntry::Separator, AtomMenuEntry::Rename]
    );
    assert_eq!(
        build_atom_context_menu("Fix dock layout persistence", state(false, true, false, false, false)).entries,
        vec![AtomMenuEntry::Title, AtomMenuEntry::Unsettle, AtomMenuEntry::Separator, AtomMenuEntry::Rename]
    );
    assert_eq!(
        build_atom_context_menu("Fix dock layout persistence", state(true, false, true, false, false)).entries,
        vec![AtomMenuEntry::Title, AtomMenuEntry::Unarchive, AtomMenuEntry::Separator, AtomMenuEntry::Rename]
    );
}

#[test]
fn context_menu_state_reads_shelf_and_moves() {
    let mut view = SidebarViewModel::new("active-1");
    let pinned = view.atoms.iter().find(|t| t.id == "pinned-1").unwrap().clone();
    assert_eq!(view.context_menu_state(&pinned), state(true, false, false, false, true));
    view.archive_atom("pinned-1");
    assert_eq!(view.context_menu_state(&pinned), state(true, false, true, false, false));
    let last = view.atoms.iter().find(|t| t.id == "settled-6").unwrap().clone();
    assert_eq!(view.context_menu_state(&last), state(false, true, false, true, false));
    assert_eq!(view.effective_shelf(&last), AtomShelf::Settled);
}

#[test]
fn drops_stay_in_their_list_and_never_onto_themselves() {
    assert!(accepts_atom_drop("a", AtomDragScope::Pinned, "b", AtomDragScope::Pinned));
    assert!(!accepts_atom_drop("a", AtomDragScope::Pinned, "a", AtomDragScope::Pinned));
    assert!(!accepts_atom_drop("a", AtomDragScope::Pinned, "b", AtomDragScope::Archived));
}

#[test]
fn context_menu_opens_with_its_title() {
    let menu = build_atom_context_menu("Theme transition polish", state(false, false, false, false, false));
    assert_eq!(menu.title, "Theme transition polish");
    assert_eq!(menu.entries[0], AtomMenuEntry::Title);
    assert_eq!(menu.entries.len(), 6);
}
