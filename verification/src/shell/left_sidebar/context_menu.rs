//! The right-click menu of an atom row: which actions it offers.

use vstd::prelude::*;

use super::demo_data::{AtomShelf, DemoAtom};
use super::state::SidebarViewModel;
use crate::id_list::{first_index, views};

verus! {

/// What the menu of one atom row depends on.
#[derive(Clone, Copy, Debug, PartialEq, Eq, Structural)]
pub struct AtomContextMenuState {
    pub is_pinned: bool,
    pub is_settled: bool,
    pub is_archived: bool,
    pub can_move_up: bool,
    pub can_move_down: bool,
}

/// An entry of the atom row menu.
#[derive(Clone, Copy, Debug, PartialEq, Eq, Structural)]
pub enum AtomMenuEntry {
    /// The leading label, which shows the menu's title.
    Title,
    MoveUp,
    MoveDown,
    Separator,
    Unarchive,
    Unpin,
    Unsettle,
    Pin,
    Settle,
    Archive,
    Rename,
}

/// The menu, top to bottom: the title label; the possible moves and a
/// separator after them;
/// then one way off the atom's list (unarchive, unpin or unsettle), or, for
/// an active atom, pin, settle and archive; then a separator and rename.
pub open spec fn menu_entries(state: AtomContextMenuState) -> Seq<AtomMenuEntry> {
    seq![AtomMenuEntry::Title] + (if state.can_move_up {
        seq![AtomMenuEntry::MoveUp]
    } else {
        Seq::empty()
    }) + (if state.can_move_down {
        seq![AtomMenuEntry::MoveDown]
    } else {
        Seq::empty()
    }) + (if state.can_move_up || state.can_move_down {
        seq![AtomMenuEntry::Separator]
    } else {
        Seq::empty()
    }) + (if state.is_archived {
        seq![AtomMenuEntry::Unarchive]
    } else if state.is_pinned {
        seq![AtomMenuEntry::Unpin]
    } else if state.is_settled {
        seq![AtomMenuEntry::Unsettle]
    } else {
        seq![AtomMenuEntry::Pin, AtomMenuEntry::Settle, AtomMenuEntry::Archive]
    }) + seq![AtomMenuEntry::Separator, AtomMenuEntry::Rename]
}

/// An atom row's menu: the title its leading label shows, and its entries.
#[derive(Clone, Debug, PartialEq, Eq)]
pub struct AtomContextMenu {
    pub title: String,
    pub entries: Vec<AtomMenuEntry>,
}

/// The menu of an atom row titled `menu_title`.
pub fn build_atom_context_menu(menu_title: &str, state: AtomContextMenuState) -> (r: AtomContextMenu)
    ensures
        r.title@ == menu_title@,
        r.entries@ == menu_entries(state),
{
    let mut menu: Vec<AtomMenuEntry> = Vec::new();
    menu.push(AtomMenuEntry::Title);
    if state.can_move_up {
        menu.push(AtomMenuEntry::MoveUp);
    }
    if state.can_move_down {
        menu.push(AtomMenuEntry::MoveDown);
    }
    if state.can_move_up || state.can_move_down {
        menu.push(AtomMenuEntry::Separator);
    }
    if state.is_archived {
        menu.push(AtomMenuEntry::Unarchive);
    } else if state.is_pinned {
        menu.push(AtomMenuEntry::Unpin);
    } else if state.is_settled {
        menu.push(AtomMenuEntry::Unsettle);
    } else {
        menu.push(AtomMenuEntry::Pin);
        menu.push(AtomMenuEntry::Settle);
        menu.push(AtomMenuEntry::Archive);
    }
    menu.push(AtomMenuEntry::Separator);
    menu.push(AtomMenuEntry::Rename);
    assert(menu@ =~= menu_entries(state));
    AtomContextMenu { title: menu_title.to_owned(), entries: menu }
}

/// Every menu opens with its title and ends with rename, and offers
/// archiving exactly when the atom is on the active shelf and not archived.
pub proof fn law_menu_shape(state: AtomContextMenuState)
    ensures
        menu_entries(state)[0] == AtomMenuEntry::Title,
        menu_entries(state).last() == AtomMenuEntry::Rename,
        menu_entries(state).contains(AtomMenuEntry::Archive) <==> (!state.is_archived
            && !state.is_pinned && !state.is_settled),
        menu_entries(state).contains(AtomMenuEntry::MoveUp) <==> state.can_move_up,
        menu_entries(state).contains(AtomMenuEntry::MoveDown) <==> state.can_move_down,
{
    let m = menu_entries(state);
    if !state.is_archived && !state.is_pinned && !state.is_settled {
        let i = 1 + if state.can_move_up {
            1int
        } else {
            0
        } + if state.can_move_down {
            1int
        } else {
            0
        } + if state.can_move_up || state.can_move_down {
            1int
        } else {
            0
        } + 2;
        assert(m[i] == AtomMenuEntry::Archive);
    }
    if state.can_move_up {
        assert(m[1] == AtomMenuEntry::MoveUp);
    }
    if state.can_move_down {
        let i = if state.can_move_up {
            2int
        } else {
            1
        };
        assert(m[i] == AtomMenuEntry::MoveDown);
    }
}

impl SidebarViewModel {
    /// The menu state of an atom row: its shelf, whether it is archived, and
    /// whether it can move a place up or down.
    pub fn context_menu_state(&self, atom: &DemoAtom) -> (r: AtomContextMenuState)
        requires
            self.move_order(atom.id@).len() < isize::MAX,
        ensures
            r.is_pinned == (self.shelf_of(*atom) == AtomShelf::Pinned),
            r.is_settled == (self.shelf_of(*atom) == AtomShelf::Settled),
            r.is_archived == self.archived(*atom),
            r.can_move_up == match first_index(views(self.move_order(atom.id@)@), atom.id@) {
                Some(p) => 0 <= p - 1,
                None => false,
            },
            r.can_move_down == match first_index(views(self.move_order(atom.id@)@), atom.id@) {
                Some(p) => p + 1 < self.move_order(atom.id@).len(),
                None => false,
            },
    {
        proof {
            crate::id_list::lemma_first_index(views(self.move_order(atom.id@)@), atom.id@);
        }
        let shelf = self.effective_shelf(atom);
        AtomContextMenuState {
            is_pinned: shelf == AtomShelf::Pinned,
            is_settled: shelf == AtomShelf::Settled,
            is_archived: self.is_archived(atom),
            can_move_up: self.can_move_atom(atom.id.as_str(), -1),
            can_move_down: self.can_move_atom(atom.id.as_str(), 1),
        }
    }
}

} // verus!
