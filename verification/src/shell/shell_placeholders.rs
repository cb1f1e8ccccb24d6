//! Coming-soon copy for the stub workspace modes.

use vstd::prelude::*;

use super::shell_state::WorkspaceMode;

verus! {

/// Copy shown in a mode placeholder panel.
#[derive(Debug, Clone, Copy, PartialEq, Eq)]
pub struct ModePlaceholderCopy {
    pub title: &'static str,
    pub description: &'static str,
}

/// The placeholder title of a stub mode.
pub open spec fn copy_title(mode: WorkspaceMode) -> Seq<char> {
    match mode {
        WorkspaceMode::Editor => "Editor"@,
        _ => "Terminal"@,
    }
}

/// The placeholder description of a stub mode.
pub open spec fn copy_description(mode: WorkspaceMode) -> Seq<char> {
    match mode {
        WorkspaceMode::Editor => "Code editing and file navigation are coming soon."@,
        _ => "An integrated terminal workspace is coming soon."@,
    }
}

/// Returns distinct placeholder copy for stub modes; chat has none.
pub fn mode_placeholder_copy(mode: WorkspaceMode) -> (r: Option<ModePlaceholderCopy>)
    ensures
        match mode {
            WorkspaceMode::Chat => r is None,
            _ => r matches Some(c) && c.title@ == copy_title(mode) && c.description@
                == copy_description(mode),
        },
{
    match mode {
        WorkspaceMode::Editor => Some(
            ModePlaceholderCopy {
                title: "Editor",
                description: "Code editing and file navigation are coming soon.",
            },
        ),
        WorkspaceMode::Terminal => Some(
            ModePlaceholderCopy {
                title: "Terminal",
                description: "An integrated terminal workspace is coming soon.",
            },
        ),
        WorkspaceMode::Chat => None,
    }
}


/// The editor and terminal placeholder copies differ in title and description.
pub proof fn law_stub_copies_are_distinct()
    ensures
        copy_title(WorkspaceMode::Editor) != copy_title(WorkspaceMode::Terminal),
        copy_description(WorkspaceMode::Editor) != copy_description(WorkspaceMode::Terminal),
{
    reveal_strlit("Editor");
    reveal_strlit("Terminal");
    reveal_strlit("Code editing and file navigation are coming soon.");
    reveal_strlit("An integrated terminal workspace is coming soon.");
    assert("Editor"@[0] != "Terminal"@[0]);
    assert("Code editing and file navigation are coming soon."@[0]
        != "An integrated terminal workspace is coming soon."@[0]);
}

} // verus!
