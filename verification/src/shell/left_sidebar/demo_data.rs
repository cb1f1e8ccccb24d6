//! Demo projections for the left sidebar: projects, threads, atoms and the
//! composer draft that the sidebar shows until real data is wired in.

use vstd::prelude::*;

verus! {

#[derive(Clone, Debug, PartialEq, Eq)]
pub enum ThreadShelf {
    Pinned,
    Active,
    Snoozed,
    Settled,
}

#[derive(Clone, Debug)]
pub struct DemoProject {
    pub key: &'static str,
    pub display_name: &'static str,
}

#[derive(Clone, Debug)]
pub struct DemoThread {
    pub id: &'static str,
    pub title: &'static str,
    pub project_key: &'static str,
    pub project_title: &'static str,
    pub branch: Option<&'static str>,
    pub shelf: ThreadShelf,
    pub time_label: &'static str,
    pub status_label: Option<&'static str>,
    pub pr_number: Option<u32>,
    pub diff_insertions: Option<u32>,
    pub diff_deletions: Option<u32>,
    pub pinned: bool,
    pub is_active: bool,
}

/// The shelf an atom sits on.
#[derive(Clone, Copy, Debug, PartialEq, Eq, Structural)]
pub enum AtomShelf {
    Pinned,
    Active,
    Settled,
}

/// What an atom's agent is doing.
#[derive(Clone, Copy, Debug, PartialEq, Eq, Structural)]
pub enum AtomStatus {
    Ready,
    Working,
    Monitoring,
    Approval,
    Input,
    Woke,
    Failed,
}

/// A unit of work listed in the sidebar.
#[derive(Clone, Debug)]
pub struct DemoAtom {
    pub id: String,
    pub title: String,
    pub project_key: String,
    pub project_title: String,
    pub shelf: AtomShelf,
    pub status: AtomStatus,
    pub is_unread: bool,
    pub is_woke: bool,
    pub time_label: String,
    pub branch: Option<String>,
    pub pr_number: Option<u32>,
    pub diff_insertions: Option<u32>,
    pub diff_deletions: Option<u32>,
    pub terminal_process_count: u32,
}

/// The unsent composer draft shown at the top of the active shelf.
#[derive(Clone, Debug)]
pub struct DemoDraft {
    pub id: String,
    pub preview: String,
    pub project_key: String,
    pub project_title: String,
}

/// Scope label when no project filter is set.
pub const ALL_ATOMS_LABEL: &'static str = "All atoms";

/// Row id of the composer draft.
pub const DRAFT_ID: &'static str = "draft";

/// The facts about an atom that the sidebar's rules read: id, title, project
/// key, project title, shelf, status, unread and woke flags.
pub open spec fn atom_facts(a: DemoAtom) -> (
    Seq<char>,
    Seq<char>,
    Seq<char>,
    Seq<char>,
    AtomShelf,
    AtomStatus,
    bool,
    bool,
) {
    (a.id@, a.title@, a.project_key@, a.project_title@, a.shelf, a.status, a.is_unread, a.is_woke)
}

/// The demo catalog, in display order, as [`atom_facts`].
pub open spec fn demo_catalog() -> Seq<
    (Seq<char>, Seq<char>, Seq<char>, Seq<char>, AtomShelf, AtomStatus, bool, bool),
> {
    seq![
        ("pinned-1"@, "Fix dock layout persistence"@, "opencore"@, "opencore_rustroops"@, AtomShelf::Pinned, AtomStatus::Working, false, false),
        ("pinned-2"@, "Compare dock crate APIs"@, "t3code"@, "t3code"@, AtomShelf::Pinned, AtomStatus::Monitoring, true, false),
        ("active-1"@, "Implement left sidebar UI"@, "opencore"@, "opencore_rustroops"@, AtomShelf::Active, AtomStatus::Ready, false, false),
        ("active-2"@, "Theme transition polish"@, "opencore"@, "opencore_rustroops"@, AtomShelf::Active, AtomStatus::Working, false, false),
        ("settled-1"@, "Welcome screen layout"@, "opencore"@, "opencore_rustroops"@, AtomShelf::Settled, AtomStatus::Ready, false, false),
        ("settled-2"@, "Shell workspace title bar"@, "opencore"@, "opencore_rustroops"@, AtomShelf::Settled, AtomStatus::Ready, false, false),
        ("settled-3"@, "Preferences persistence"@, "opencore"@, "opencore_rustroops"@, AtomShelf::Settled, AtomStatus::Ready, false, false),
        ("settled-4"@, "Tab strip drag reorder"@, "t3code"@, "t3code"@, AtomShelf::Settled, AtomStatus::Approval, false, false),
        ("settled-5"@, "Terminal dock prototype"@, "t3code"@, "t3code"@, AtomShelf::Settled, AtomStatus::Failed, false, false),
        ("settled-6"@, "Nightly build watcher"@, "t3code"@, "t3code"@, AtomShelf::Settled, AtomStatus::Woke, false, true),
    ]
}

/// The text of an optional borrowed label.
pub open spec fn opt_str_view(s: Option<&str>) -> Option<Seq<char>> {
    match s {
        Some(v) => Some(v@),
        None => None,
    }
}

/// The text of an optional owned label.
pub open spec fn opt_string_view(s: Option<String>) -> Option<Seq<char>> {
    match s {
        Some(v) => Some(v@),
        None => None,
    }
}

/// The details an atom row shows beside its facts: time label, branch, pull
/// request number, diff counts and running terminal processes.
pub open spec fn atom_details(a: DemoAtom) -> (
    Seq<char>,
    Option<Seq<char>>,
    Option<u32>,
    Option<u32>,
    Option<u32>,
    u32,
) {
    (
        a.time_label@,
        opt_string_view(a.branch),
        a.pr_number,
        a.diff_insertions,
        a.diff_deletions,
        a.terminal_process_count,
    )
}

/// The demo catalog's row details, in display order, as [`atom_details`].
pub open spec fn demo_details() -> Seq<
    (Seq<char>, Option<Seq<char>>, Option<u32>, Option<u32>, Option<u32>, u32),
> {
    seq![
        ("2h"@, Some("feat/shell-dock"@), Some(42u32), Some(128u32), Some(24u32), 1u32),
        ("5h"@, Some("research/dock"@), None, None, None, 0u32),
        ("now"@, Some("feat/left-sidebar"@), None, None, None, 0u32),
        ("18m"@, Some("main"@), None, Some(12u32), Some(3u32), 2u32),
        ("1d"@, Some("main"@), Some(38u32), None, None, 0u32),
        ("3d"@, Some("feat/shell"@), None, None, None, 0u32),
        ("1w"@, None, None, None, None, 0u32),
        ("1w"@, Some("feat/tabs"@), Some(51u32), Some(40u32), Some(9u32), 0u32),
        ("2w"@, Some("spike/terminal"@), None, None, None, 0u32),
        ("3w"@, None, None, None, None, 1u32),
    ]
}

fn opt_string(s: Option<&str>) -> (r: Option<String>)
    ensures
        opt_string_view(r) == opt_str_view(s),
{
    match s {
        Some(v) => Some(v.to_owned()),
        None => None,
    }
}

fn atom(
    id: &str,
    title: &str,
    project_key: &str,
    project_title: &str,
    shelf: AtomShelf,
    status: AtomStatus,
    is_unread: bool,
    is_woke: bool,
    time_label: &str,
    branch: Option<&str>,
    pr_number: Option<u32>,
    diff_insertions: Option<u32>,
    diff_deletions: Option<u32>,
    terminal_process_count: u32,
) -> (r: DemoAtom)
    ensures
        atom_facts(r) == (
            id@,
            title@,
            project_key@,
            project_title@,
            shelf,
            status,
            is_unread,
            is_woke,
        ),
        atom_details(r) == (
            time_label@,
            opt_str_view(branch),
            pr_number,
            diff_insertions,
            diff_deletions,
            terminal_process_count,
        ),
{
    DemoAtom {
        id: id.to_owned(),
        title: title.to_owned(),
        project_key: project_key.to_owned(),
        project_title: project_title.to_owned(),
        shelf,
        status,
        is_unread,
        is_woke,
        time_label: time_label.to_owned(),
        branch: opt_string(branch),
        pr_number,
        diff_insertions,
        diff_deletions,
        terminal_process_count,
    }
}

/// The demo atom catalog.
pub fn demo_atoms() -> (r: Vec<DemoAtom>)
    ensures
        r@.map_values(|a: DemoAtom| atom_facts(a)) == demo_catalog(),
        r@.map_values(|a: DemoAtom| atom_details(a)) == demo_details(),
{
    let mut v: Vec<DemoAtom> = Vec::new();
    v.push(atom("pinned-1", "Fix dock layout persistence", "opencore", "opencore_rustroops", AtomShelf::Pinned, AtomStatus::Working, false, false, "2h", Some("feat/shell-dock"), Some(42), Some(128), Some(24), 1));
    v.push(atom("pinned-2", "Compare dock crate APIs", "t3code", "t3code", AtomShelf::Pinned, AtomStatus::Monitoring, true, false, "5h", Some("research/dock"), None, None, None, 0));
    v.push(atom("active-1", "Implement left sidebar UI", "opencore", "opencore_rustroops", AtomShelf::Active, AtomStatus::Ready, false, false, "now", Some("feat/left-sidebar"), None, None, None, 0));
    v.push(atom("active-2", "Theme transition polish", "opencore", "opencore_rustroops", AtomShelf::Active, AtomStatus::Working, false, false, "18m", Some("main"), None, Some(12), Some(3), 2));
    v.push(atom("settled-1", "Welcome screen layout", "opencore", "opencore_rustroops", AtomShelf::Settled, AtomStatus::Ready, false, false, "1d", Some("main"), Some(38), None, None, 0));
    v.push(atom("settled-2", "Shell workspace title bar", "opencore", "opencore_rustroops", AtomShelf::Settled, AtomStatus::Ready, false, false, "3d", Some("feat/shell"), None, None, None, 0));
    v.push(atom("settled-3", "Preferences persistence", "opencore", "opencore_rustroops", AtomShelf::Settled, AtomStatus::Ready, false, false, "1w", None, None, None, None, 0));
    v.push(atom("settled-4", "Tab strip drag reorder", "t3code", "t3code", AtomShelf::Settled, AtomStatus::Approval, false, false, "1w", Some("feat/tabs"), Some(51), Some(40), Some(9), 0));
    v.push(atom("settled-5", "Terminal dock prototype", "t3code", "t3code", AtomShelf::Settled, AtomStatus::Failed, false, false, "2w", Some("spike/terminal"), None, None, None, 0));
    v.push(atom("settled-6", "Nightly build watcher", "t3code", "t3code", AtomShelf::Settled, AtomStatus::Woke, false, true, "3w", None, None, None, None, 1));
    assert(v@.map_values(|a: DemoAtom| atom_facts(a)) =~= demo_catalog());
    assert(v@.map_values(|a: DemoAtom| atom_details(a)) =~= demo_details());
    v
}

} // verus!
