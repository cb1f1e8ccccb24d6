//! Ephemeral workspace mode — which center panel the shell shows.

use vstd::prelude::*;

verus! {

/// Active center workspace panel (not persisted in preferences).
#[derive(Debug, Clone, Copy, PartialEq, Eq, Structural)]
pub enum WorkspaceMode {
    Editor,
    Chat,
    Terminal,
}

impl Default for WorkspaceMode {
    fn default() -> (r: Self)
        ensures
            r == WorkspaceMode::Chat,
    {
        WorkspaceMode::Chat
    }
}

/// The tab label of a mode.
pub open spec fn mode_label(mode: WorkspaceMode) -> Seq<char> {
    match mode {
        WorkspaceMode::Editor => "Editor"@,
        WorkspaceMode::Chat => "Chat"@,
        WorkspaceMode::Terminal => "Terminal"@,
    }
}

impl WorkspaceMode {
    pub const ALL: [Self; 3] = [Self::Editor, Self::Chat, Self::Terminal];

    pub fn label(self) -> (r: &'static str)
        ensures
            r@ == mode_label(self),
    {
        match self {
            Self::Editor => "Editor",
            Self::Chat => "Chat",
            Self::Terminal => "Terminal",
        }
    }
}


/// Every mode has its own label.
pub proof fn law_mode_labels_are_distinct(a: WorkspaceMode, b: WorkspaceMode)
    ensures
        a != b ==> mode_label(a) != mode_label(b),
{
    reveal_strlit("Editor");
    reveal_strlit("Chat");
    reveal_strlit("Terminal");
    assert("Editor"@[0] != "Chat"@[0]);
    assert("Editor"@[0] != "Terminal"@[0]);
    assert("Chat"@[0] != "Terminal"@[0]);
}

} // verus!
