//! Drag-and-drop drop-indicator state for atom row reordering.

use vstd::prelude::*;

use super::demo_data::AtomShelf;
use crate::text::str_eq;

verus! {

/// The list a dragged atom row belongs to; drops stay within one list.
#[derive(Clone, Copy, Debug, PartialEq, Eq, Structural)]
pub enum AtomDragScope {
    Pinned,
    Active,
    Settled,
    Archived,
}

impl AtomDragScope {
    /// The list of an atom: the archive for archived atoms, else its shelf.
    pub fn from_atom(_atom_id: &str, effective_shelf: AtomShelf, is_archived: bool) -> (r: Self)
        ensures
            r == if is_archived {
                AtomDragScope::Archived
            } else {
                match effective_shelf {
                    AtomShelf::Pinned => AtomDragScope::Pinned,
                    AtomShelf::Active => AtomDragScope::Active,
                    AtomShelf::Settled => AtomDragScope::Settled,
                }
            },
    {
        if is_archived {
            return Self::Archived;
        }
        match effective_shelf {
            AtomShelf::Pinned => Self::Pinned,
            AtomShelf::Active => Self::Active,
            AtomShelf::Settled => Self::Settled,
        }
    }

    /// A row accepts a drop from its own list only.
    pub fn allows_drop(self, target: Self) -> (r: bool)
        ensures
            r == (self == target),
    {
        self == target
    }
}

/// Whether a row accepts a dragged row: never itself, and only from its
/// own list.
pub fn accepts_atom_drop(
    dragged_id: &str,
    dragged_scope: AtomDragScope,
    row_id: &str,
    row_scope: AtomDragScope,
) -> (r: bool)
    ensures
        r == (dragged_id@ != row_id@ && dragged_scope == row_scope),
{
    !str_eq(dragged_id, row_id) && dragged_scope.allows_drop(row_scope)
}

/// How one row draws during a drag: as the dragged source, or with a drop
/// line above or below it.
#[derive(Clone, Copy, Debug, PartialEq, Eq, Structural)]
pub struct PinnedRowDragUi {
    pub is_source: bool,
    pub drop_above: bool,
    pub drop_below: bool,
}

impl Default for PinnedRowDragUi {
    fn default() -> (r: Self)
        ensures
            r == (PinnedRowDragUi { is_source: false, drop_above: false, drop_below: false }),
    {
        PinnedRowDragUi { is_source: false, drop_above: false, drop_below: false }
    }
}

/// The row being dragged and the row (and side) it would drop on.
#[derive(Clone, Debug, Default)]
pub struct PinnedDragState {
    pub dragging_id: Option<String>,
    pub drop_target: Option<(String, bool)>,
}

impl PinnedDragState {
    /// How row `atom_id` draws: the source when it is dragged; a drop line
    /// below it when it is the target of an after-drop, above it for a
    /// before-drop.
    pub fn for_atom(&self, atom_id: &str) -> (r: PinnedRowDragUi)
        ensures
            r.is_source == (self.dragging_id matches Some(d) && d@ == atom_id@),
            (r.drop_above, r.drop_below) == match self.drop_target {
                Some((id, insert_after)) => if id@ == atom_id@ {
                    (!insert_after, insert_after)
                } else {
                    (false, false)
                },
                None => (false, false),
            },
            !(r.drop_above && r.drop_below),
    {
        let (drop_above, drop_below) = match &self.drop_target {
            Some((id, insert_after)) => if str_eq(id.as_str(), atom_id) {
                (!*insert_after, *insert_after)
            } else {
                (false, false)
            },
            None => (false, false),
        };
        let is_source = match &self.dragging_id {
            Some(d) => str_eq(d.as_str(), atom_id),
            None => false,
        };
        PinnedRowDragUi { is_source, drop_above, drop_below }
    }
}

} // verus!
