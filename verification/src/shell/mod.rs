//! The workspace shell: modes, tabs, sidebar and chrome decisions.

pub mod left_sidebar;
pub mod panels;
pub mod tabs;
pub mod mode_placeholder;
pub mod shell_placeholders;
pub mod shell_state;
pub mod workspace_mode;
pub mod chat;
pub mod context_label;
pub mod shell_helpers;
pub mod shell_view;
pub mod composer;
pub mod dock_layout;
pub mod tab_session;
