use opencore_rustroops::shell::tab_session::{RenameInputEvent, TabStrip};
use opencore_rustroops::shell::tabs::{ShellTabRecord, TabModel};

fn test_strip() -> TabStrip {
    TabStrip::new(TabModel {
        tabs: vec![
            ShellTabRecord {
                id: "tab-1".into(),
                title: "New Tab".into(),
            },
            ShellTabRecord {
                id: "tab-2".into(),
                title: "Notes".into(),
            },
        ],
        active_id: "tab-1".into(),
    })
}

#[test]
fn rename_blur_commit_starts_disarmed() {
    let strip = test_strip();
    assert!(!strip.rename_commit_on_blur);
}

#[test]
fn clear_rename_session_discards_rename_state() {
    let mut strip = test_strip();
    strip.renaming_tab_id = Some("tab-1".into());

    strip.clear_rename_session();

    assert!(strip.renaming_tab_id.is_none());
}

#[test]
fn clear_rename_session_disarms_blur_commit() {
    let mut strip = test_strip();
    strip.rename_commit_on_blur = true;
    strip.renaming_tab_id = Some("tab-1".into());

    strip.clear_rename_session();

    assert!(!strip.rename_commit_on_blur);
    assert!(strip.renaming_tab_id.is_none());
}

#[test]
fn closing_renamed_tab_clears_rename_session() {
    let mut strip = test_strip();
    let id = strip.tab_model.active_id.clone();
    strip.renaming_tab_id = Some(id.clone());

    strip.close_tab(&id);

    assert!(strip.renaming_tab_id.is_none());
    assert_eq!(strip.tab_model.tabs.len(), 1);
}

#[test]
fn closing_other_tab_keeps_rename_session() {
    let mut strip = test_strip();
    strip.begin_rename("tab-1");
    strip.close_tab("tab-2");
    assert_eq!(strip.renaming_tab_id.as_deref(), Some("tab-1"));
}

#[test]
fn begin_rename_selects_and_seeds_title() {
    let mut strip = test_strip();
    assert_eq!(strip.begin_rename("tab-2"), Some("Notes".to_string()));
    assert_eq!(strip.tab_model.active_id, "tab-2");
    assert_eq!(strip.renaming_tab_id.as_deref(), Some("tab-2"));
    assert!(!strip.rename_commit_on_blur);
    let before = strip.clone();
    assert_eq!(strip.begin_rename("missing"), None);
    assert_eq!(strip, before);
}

#[test]
fn blur_commits_only_once_armed() {
    let mut strip = test_strip();
    strip.begin_rename("tab-1");
    strip.handle_rename_event(RenameInputEvent::Blur, "Draft");
    assert_eq!(strip.tab_model.tabs[0].title, "New Tab");
    assert!(strip.renaming_tab_id.is_some());
    strip.handle_rename_event(RenameInputEvent::Change, "Draft");
    strip.arm_blur_commit();
    strip.handle_rename_event(RenameInputEvent::Blur, "  Draft  ");
    assert_eq!(strip.tab_model.tabs[0].title, "Draft");
    assert!(strip.renaming_tab_id.is_none());
    assert!(!strip.rename_commit_on_blur);
}

#[test]
fn enter_commits_and_cancel_discards() {
    let mut strip = test_strip();
    strip.begin_rename("tab-2");
    strip.handle_rename_event(RenameInputEvent::PressEnter, "Plans");
    assert_eq!(strip.tab_model.tabs[1].title, "Plans");
    strip.begin_rename("tab-2");
    strip.cancel_rename();
    assert_eq!(strip.tab_model.tabs[1].title, "Plans");
    assert!(strip.renaming_tab_id.is_none());
    strip.commit_rename(Some("Ignored"));
    assert_eq!(strip.tab_model.tabs[1].title, "Plans");
}

#[test]
fn strip_passes_tab_edits_through() {
    let mut strip = test_strip();
    let id = strip.add_stub_tab();
    assert_eq!(id, "tab-3");
    strip.reorder_tab(2, 0);
    assert_eq!(strip.tab_model.tabs[0].id, "tab-3");
    strip.select_tab("tab-2");
    assert_eq!(strip.tab_model.active_id, "tab-2");
}
