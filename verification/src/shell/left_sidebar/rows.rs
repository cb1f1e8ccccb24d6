//! Row and header styles of the sidebar lists.

use vstd::prelude::*;

verus! {

/// Atom rows draw as full cards or as slim one-liners.
#[derive(Clone, Copy, Debug, PartialEq, Eq, Structural)]
pub enum AtomRowVariant {
    Card,
    Slim,
}

/// Thread rows draw as full cards or as slim one-liners.
#[derive(Clone, Copy, Debug, PartialEq, Eq, Structural)]
pub enum ThreadRowVariant {
    Card,
    Slim,
}

/// The tone of a collapsible shelf header.
#[derive(Clone, Copy, Debug, PartialEq, Eq, Structural)]
pub enum ShelfTone {
    Snoozed,
    Settled,
}

/// What a click on a sidebar row does.
#[derive(Clone, Copy, Debug, PartialEq, Eq, Structural)]
pub enum RowClickAction {
    /// The click is part of a double click: nothing happens.
    Ignore,
    /// Shift-click: the row joins the range selection.
    SelectRange,
    /// A plain click opens the row.
    Activate,
}

/// Routes a click on a row: a second click of a double click is ignored,
/// shift selects a range, anything else activates.
pub fn row_click_action(click_count: usize, shift: bool) -> (r: RowClickAction)
    ensures
        r == (if click_count >= 2 {
            RowClickAction::Ignore
        } else if shift {
            RowClickAction::SelectRange
        } else {
            RowClickAction::Activate
        }),
{
    if click_count >= 2 {
        RowClickAction::Ignore
    } else if shift {
        RowClickAction::SelectRange
    } else {
        RowClickAction::Activate
    }
}

} // verus!
