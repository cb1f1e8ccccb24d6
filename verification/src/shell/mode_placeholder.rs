//! Coming-soon center panels for non-chat workspace modes.

use vstd::prelude::*;

use super::workspace_mode::{mode_label, WorkspaceMode};

verus! {

/// Copy shown in Editor / Terminal placeholder panels.
#[derive(Debug, Clone, Copy, PartialEq, Eq)]
pub struct ModePlaceholder {
    pub heading: &'static str,
    pub description: &'static str,
}

/// Which center surface the shell should mount for a mode (**State** routing).
#[derive(Debug, Clone, Copy, PartialEq, Eq)]
pub enum CenterPanelKind {
    Chat,
    Placeholder(ModePlaceholder),
}

/// The description of a mode's placeholder panel.
pub open spec fn placeholder_description(mode: WorkspaceMode) -> Seq<char> {
    match mode {
        WorkspaceMode::Editor => "A multi-file code editor will live here. Chat remains fully available via the Chat tab."@,
        WorkspaceMode::Terminal => "An integrated terminal will live here. Chat remains fully available via the Chat tab."@,
        WorkspaceMode::Chat => "Active conversations render in this panel."@,
    }
}

/// Chat mounts the chat panel; every other mode mounts its placeholder.
pub fn center_panel_for_mode(mode: WorkspaceMode) -> (r: CenterPanelKind)
    ensures
        match r {
            CenterPanelKind::Chat => mode == WorkspaceMode::Chat,
            CenterPanelKind::Placeholder(p) => mode != WorkspaceMode::Chat && p.heading@ == mode_label(
                mode,
            ) && p.description@ == placeholder_description(mode),
        },
{
    match mode {
        WorkspaceMode::Chat => CenterPanelKind::Chat,
        WorkspaceMode::Editor => CenterPanelKind::Placeholder(
            placeholder_for_mode(WorkspaceMode::Editor),
        ),
        WorkspaceMode::Terminal => CenterPanelKind::Placeholder(
            placeholder_for_mode(WorkspaceMode::Terminal),
        ),
    }
}

/// The placeholder copy of a mode, headed by the mode's label.
pub fn placeholder_for_mode(mode: WorkspaceMode) -> (r: ModePlaceholder)
    ensures
        r.heading@ == mode_label(mode),
        r.description@ == placeholder_description(mode),
{
    match mode {
        WorkspaceMode::Editor => ModePlaceholder {
            heading: "Editor",
            description: "A multi-file code editor will live here. Chat remains fully available via the Chat tab.",
        },
        WorkspaceMode::Terminal => ModePlaceholder {
            heading: "Terminal",
            description: "An integrated terminal will live here. Chat remains fully available via the Chat tab.",
        },
        WorkspaceMode::Chat => ModePlaceholder {
            heading: "Chat",
            description: "Active conversations render in this panel.",
        },
    }
}


/// The editor and terminal placeholders differ in heading and description.
pub proof fn law_stub_placeholders_are_distinct()
    ensures
        mode_label(WorkspaceMode::Editor) != mode_label(WorkspaceMode::Terminal),
        placeholder_description(WorkspaceMode::Editor) != placeholder_description(
            WorkspaceMode::Terminal,
        ),
{
    reveal_strlit("Editor");
    reveal_strlit("Terminal");
    reveal_strlit("A multi-file code editor will live here. Chat remains fully available via the Chat tab.");
    reveal_strlit("An integrated terminal will live here. Chat remains fully available via the Chat tab.");
    assert("Editor"@[0] != "Terminal"@[0]);
    assert("A multi-file code editor will live here. Chat remains fully available via the Chat tab."@[1]
        != "An integrated terminal will live here. Chat remains fully available via the Chat tab."@[1]);
}

} // verus!
