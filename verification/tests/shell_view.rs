use opencore_rustroops::shell::composer::{submit_composer, COMPOSER_MAX_ROWS, COMPOSER_MIN_ROWS};
use opencore_rustroops::shell::panels::next_active_after_close;
use opencore_rustroops::shell::shell_view::{active_tab_title, tab_drop_index, tab_is_renaming};
use opencore_rustroops::shell::tabs::ShellTabRecord;

#[test]
fn tab_rename_state_only_matches_the_active_rename_session() {
    assert!(tab_is_renaming(Some("tab-1"), "tab-1"));
    assert!(!tab_is_renaming(Some("tab-1"), "tab-2"));
    assert!(!tab_is_renaming(None, "tab-1"));
}

#[test]
fn tab_drop_index_accounts_for_removed_source_chip() {
    assert_eq!(tab_drop_index(0, 2, 2), 1);
    assert_eq!(tab_drop_index(2, 0, 3), 0);
    assert_eq!(tab_drop_index(1, 1, 3), 1);
}

#[test]
fn tab_drop_index_supports_trailing_drop_target() {
    assert_eq!(tab_drop_index(0, 3, 3), 2);
    assert_eq!(tab_drop_index(2, 3, 3), 2);
}

#[test]
fn tab_drop_index_on_empty_strip_is_zero() {
    assert_eq!(tab_drop_index(0, 0, 0), 0);
    assert_eq!(tab_drop_index(0, 1, 2), 0);
}

#[test]
fn center_stub_host_add_select_close_updates_active() {
    assert_eq!(next_active_after_close(0, 0, 2), Some(0));
    assert_eq!(next_active_after_close(2, 2, 2), Some(1));
    assert_eq!(next_active_after_close(0, 0, 0), None);
}

#[test]
fn next_active_shifts_left_after_closing_earlier_tab() {
    assert_eq!(next_active_after_close(3, 1, 4), Some(2));
    assert_eq!(next_active_after_close(1, 3, 4), Some(1));
    assert_eq!(next_active_after_close(5, 5, 3), Some(2));
}

#[test]
fn composer_row_limits_match_spec() {
    assert_eq!(COMPOSER_MIN_ROWS, 1);
    assert_eq!(COMPOSER_MAX_ROWS, 6);
}

#[test]
fn composer_submits_trimmed_text_and_ignores_whitespace() {
    assert_eq!(submit_composer("  hello \n"), Some("hello"));
    assert_eq!(submit_composer("   "), None);
    assert_eq!(submit_composer(""), None);
}

#[test]
fn active_tab_title_falls_back_to_main() {
    let tabs = vec![
        ShellTabRecord {
            id: "tab-1".to_string(),
            title: "Inbox".to_string(),
        },
        ShellTabRecord {
            id: "tab-2".to_string(),
            title: "Review".to_string(),
        },
        ShellTabRecord {
            id: "tab-2".to_string(),
            title: "Shadowed".to_string(),
        },
    ];
    assert_eq!(active_tab_title(&tabs, "tab-2"), "Review");
    assert_eq!(active_tab_title(&tabs, "tab-1"), "Inbox");
    assert_eq!(active_tab_title(&tabs, "tab-9"), "MAIN");
    assert_eq!(active_tab_title(&Vec::new(), "tab-1"), "MAIN");
}
