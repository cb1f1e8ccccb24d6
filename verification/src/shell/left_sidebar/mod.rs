//! The left sidebar: atom shelves, search, selection and drag state.

pub mod demo_data;
pub mod state;
pub mod laws;
pub mod pinned_drag;
pub mod rows;
pub mod context_menu;
pub mod sections;
