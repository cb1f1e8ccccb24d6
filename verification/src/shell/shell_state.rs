//! Ephemeral shell UI state (**State** pattern) kept separate from persisted preferences.

use vstd::prelude::*;

verus! {

/// Active center workspace mode.
#[derive(Debug, Clone, Copy, PartialEq, Eq, Structural)]
pub enum WorkspaceMode {
    Editor,
    Chat,
    Terminal,
}

impl Default for WorkspaceMode {
    fn default() -> (r: Self)
        ensures
            r == WorkspaceMode::Chat,
    {
        WorkspaceMode::Chat
    }
}

/// The tab label of a mode.
pub open spec fn mode_label(mode: WorkspaceMode) -> Seq<char> {
    match mode {
        WorkspaceMode::Editor => "Editor"@,
        WorkspaceMode::Chat => "Chat"@,
        WorkspaceMode::Terminal => "Terminal"@,
    }
}

impl WorkspaceMode {
    pub const ALL: [Self; 3] = [Self::Editor, Self::Chat, Self::Terminal];

    pub fn label(self) -> (r: &'static str)
        ensures
            r@ == mode_label(self),
    {
        match self {
            Self::Editor => "Editor",
            Self::Chat => "Chat",
            Self::Terminal => "Terminal",
        }
    }
}

/// Session-local shell state; not written to the persisted preferences.
#[derive(Debug, Clone, Copy, PartialEq, Eq, Structural)]
pub struct ShellState {
    pub active_mode: WorkspaceMode,
    pub sidebar_collapsed: bool,
}

impl Default for ShellState {
    fn default() -> (r: Self)
        ensures
            r == (ShellState { active_mode: WorkspaceMode::Chat, sidebar_collapsed: false }),
    {
        Self { active_mode: WorkspaceMode::Chat, sidebar_collapsed: false }
    }
}

/// Commands routed through the shell reducer.
#[derive(Debug, Clone, Copy, PartialEq, Eq, Structural)]
pub enum ShellCommand {
    SelectMode(WorkspaceMode),
    ToggleSidebar,
}

/// The state after a command: selecting a mode changes only the mode;
/// toggling the sidebar flips only the collapsed flag.
pub open spec fn next_shell(state: ShellState, command: ShellCommand) -> ShellState {
    match command {
        ShellCommand::SelectMode(mode) => ShellState { active_mode: mode, ..state },
        ShellCommand::ToggleSidebar => ShellState {
            sidebar_collapsed: !state.sidebar_collapsed,
            ..state
        },
    }
}

/// Reduces shell commands into the next ephemeral state.
pub fn reduce_shell(state: &ShellState, command: ShellCommand) -> (r: ShellState)
    ensures
        r == next_shell(*state, command),
{
    let mut next = *state;
    match command {
        ShellCommand::SelectMode(mode) => next.active_mode = mode,
        ShellCommand::ToggleSidebar => next.sidebar_collapsed = !next.sidebar_collapsed,
    }
    next
}

/// Toggling the sidebar twice restores the state.
pub proof fn law_toggle_sidebar_twice(state: ShellState)
    ensures
        next_shell(next_shell(state, ShellCommand::ToggleSidebar), ShellCommand::ToggleSidebar)
            == state,
{
}

/// Selecting a mode is idempotent, the last selection wins, and it never
/// touches the sidebar.
pub proof fn law_select_mode_last_wins(state: ShellState, a: WorkspaceMode, b: WorkspaceMode)
    ensures
        next_shell(next_shell(state, ShellCommand::SelectMode(a)), ShellCommand::SelectMode(b))
            == next_shell(state, ShellCommand::SelectMode(b)),
        next_shell(state, ShellCommand::SelectMode(a)).sidebar_collapsed == state.sidebar_collapsed,
        next_shell(state, ShellCommand::SelectMode(a)).active_mode == a,
{
}

/// Mode selection and sidebar toggling commute.
pub proof fn law_select_and_toggle_commute(state: ShellState, mode: WorkspaceMode)
    ensures
        next_shell(next_shell(state, ShellCommand::SelectMode(mode)), ShellCommand::ToggleSidebar)
            == next_shell(
            next_shell(state, ShellCommand::ToggleSidebar),
            ShellCommand::SelectMode(mode),
        ),
{
}


/// Every mode has its own label.
pub proof fn law_mode_labels_are_distinct(a: WorkspaceMode, b: WorkspaceMode)
    ensures
        a != b ==> mode_label(a) != mode_label(b),
{
    reveal_strlit("Editor");
    reveal_strlit("Chat");
    reveal_strlit("Terminal");
    assert("Editor"@[0] != "Chat"@[0]);
    assert("Editor"@[0] != "Terminal"@[0]);
    assert("Chat"@[0] != "Terminal"@[0]);
}

} // verus!
