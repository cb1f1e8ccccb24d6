use opencore_rustroops::shell::mode_placeholder::{
    center_panel_for_mode, placeholder_for_mode, CenterPanelKind,
};
use opencore_rustroops::shell::shell_placeholders::mode_placeholder_copy;
use opencore_rustroops::shell::shell_state::{
    reduce_shell, ShellCommand, ShellState, WorkspaceMode as ShellMode,
};
use opencore_rustroops::shell::workspace_mode::WorkspaceMode;

#[test]
fn default_mode_is_chat() {
    assert_eq!(WorkspaceMode::default(), WorkspaceMode::Chat);
}

#[test]
fn all_modes_have_distinct_labels() {
    let labels: Vec<_> = WorkspaceMode::ALL.iter().map(|m| m.label()).collect();
    assert_eq!(labels, vec!["Editor", "Chat", "Terminal"]);
}

#[test]
fn default_shell_state_starts_in_chat_with_sidebar_expanded() {
    let state = ShellState::default();
    assert_eq!(state.active_mode, ShellMode::Chat);
    assert!(!state.sidebar_collapsed);
}

#[test]
fn select_mode_updates_ephemeral_state_only() {
    let state = ShellState::default();
    let next = reduce_shell(&state, ShellCommand::SelectMode(ShellMode::Editor));
    assert_eq!(next.active_mode, ShellMode::Editor);
    assert_eq!(state.active_mode, ShellMode::Chat);
}

#[test]
fn select_mode_keeps_context_mode_independent() {
    let state = ShellState {
        active_mode: ShellMode::Terminal,
        sidebar_collapsed: true,
    };
    let next = reduce_shell(&state, ShellCommand::SelectMode(ShellMode::Chat));
    assert_eq!(next.active_mode, ShellMode::Chat);
    assert!(next.sidebar_collapsed);
}

#[test]
fn toggle_sidebar_flips_collapsed_flag_only() {
    let state = ShellState::default();
    let collapsed = reduce_shell(&state, ShellCommand::ToggleSidebar);
    assert!(collapsed.sidebar_collapsed);
    assert_eq!(collapsed.active_mode, ShellMode::Chat);
    let expanded = reduce_shell(&collapsed, ShellCommand::ToggleSidebar);
    assert!(!expanded.sidebar_collapsed);
}

#[test]
fn shell_mode_labels_and_default() {
    assert_eq!(ShellMode::default(), ShellMode::Chat);
    let labels: Vec<_> = ShellMode::ALL.iter().map(|m| m.label()).collect();
    assert_eq!(labels, vec!["Editor", "Chat", "Terminal"]);
}

#[test]
fn toggle_twice_and_select_commute_on_concrete_state() {
    let state = ShellState {
        active_mode: ShellMode::Editor,
        sidebar_collapsed: false,
    };
    let twice = reduce_shell(
        &reduce_shell(&state, ShellCommand::ToggleSidebar),
        ShellCommand::ToggleSidebar,
    );
    assert_eq!(twice, state);
    let a = reduce_shell(
        &reduce_shell(&state, ShellCommand::SelectMode(ShellMode::Terminal)),
        ShellCommand::ToggleSidebar,
    );
    let b = reduce_shell(
        &reduce_shell(&state, ShellCommand::ToggleSidebar),
        ShellCommand::SelectMode(ShellMode::Terminal),
    );
    assert_eq!(a, b);
}

#[test]
fn chat_mode_mounts_chat_panel() {
    assert_eq!(
        center_panel_for_mode(WorkspaceMode::Chat),
        CenterPanelKind::Chat
    );
}

#[test]
fn mode_placeholder_editor_and_terminal_placeholders_are_distinct() {
    let editor = placeholder_for_mode(WorkspaceMode::Editor);
    let terminal = placeholder_for_mode(WorkspaceMode::Terminal);
    assert_ne!(editor.heading, terminal.heading);
    assert_ne!(editor.description, terminal.description);
}

#[test]
fn non_chat_modes_use_placeholder_panels() {
    for mode in [WorkspaceMode::Editor, WorkspaceMode::Terminal] {
        match center_panel_for_mode(mode) {
            CenterPanelKind::Placeholder(placeholder) => {
                assert_eq!(placeholder.heading, mode.label());
            }
            CenterPanelKind::Chat => panic!("expected placeholder for {mode:?}"),
        }
    }
}

#[test]
fn chat_placeholder_copy_describes_conversations() {
    assert_eq!(placeholder_for_mode(WorkspaceMode::Chat).heading, "Chat");
    assert_eq!(
        placeholder_for_mode(WorkspaceMode::Chat).description,
        "Active conversations render in this panel."
    );
}

#[test]
fn shell_placeholders_editor_and_terminal_placeholders_are_distinct() {
    let editor = mode_placeholder_copy(ShellMode::Editor).expect("editor copy");
    let terminal = mode_placeholder_copy(ShellMode::Terminal).expect("terminal copy");
    assert_ne!(editor.title, terminal.title);
    assert_ne!(editor.description, terminal.description);
}

#[test]
fn chat_mode_has_no_placeholder_copy() {
    assert!(mode_placeholder_copy(ShellMode::Chat).is_none());
}
