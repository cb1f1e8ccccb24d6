use opencore_rustroops::shell::tabs::{ShellTabRecord, TabModel};

fn model_two() -> TabModel {
    TabModel {
        tabs: vec![
            ShellTabRecord {
                id: "a".into(),
                title: "A".into(),
            },
            ShellTabRecord {
                id: "b".into(),
                title: "B".into(),
            },
        ],
        active_id: "a".into(),
    }
}

#[test]
fn from_chrome_copies_tabs_and_active_id() {
    let chrome_tabs = vec![
        ShellTabRecord {
            id: "x".into(),
            title: "X".into(),
        },
        ShellTabRecord {
            id: "y".into(),
            title: "Y".into(),
        },
    ];
    let chrome_active_tab_id = String::from("y");

    let model = TabModel::from_chrome(&chrome_tabs, &chrome_active_tab_id);

    assert_eq!(model.tabs, chrome_tabs);
    assert_eq!(model.active_id, chrome_active_tab_id);
}

#[test]
fn select_changes_active_tab_for_known_id() {
    let mut model = model_two();

    model.select("b");

    assert_eq!(model.active_id, "b");
}

#[test]
fn select_unknown_id_is_noop() {
    let mut model = model_two();

    model.select("missing");

    assert_eq!(model.active_id, "a");
}

#[test]
fn close_active_selects_neighbor() {
    let mut m = model_two();
    m.close("a");
    assert_eq!(m.active_id, "b");
    assert_eq!(m.tabs.len(), 1);
}

#[test]
fn close_active_last_index_selects_previous_neighbor() {
    let mut m = model_two();
    m.select("b");

    m.close("b");

    assert_eq!(m.active_id, "a");
    assert_eq!(m.tabs.len(), 1);
}

#[test]
fn close_inactive_tab_preserves_active_tab() {
    let mut m = model_two();

    m.close("b");

    assert_eq!(m.active_id, "a");
    assert_eq!(
        m.tabs,
        vec![ShellTabRecord {
            id: "a".into(),
            title: "A".into()
        }]
    );
}

#[test]
fn close_unknown_tab_is_noop() {
    let mut m = model_two();

    m.close("missing");

    assert_eq!(m, model_two());
}

#[test]
fn close_last_tab_leaves_strip_empty() {
    let mut m = model_two();
    m.close("a");
    m.close("b");
    assert!(m.tabs.is_empty());
    assert!(m.active_id.is_empty());
}

#[test]
fn reorder_moves_tab() {
    let mut m = model_two();
    m.reorder(0, 1);
    assert_eq!(m.tabs[0].id, "b");
    assert_eq!(m.tabs[1].id, "a");
}

#[test]
fn reorder_out_of_bounds_is_noop() {
    let mut m = model_two();
    m.reorder(0, 2);
    assert_eq!(m, model_two());
}

#[test]
fn rename_updates_known_tab_title() {
    let mut m = model_two();
    m.rename("a", "Alpha");
    assert_eq!(m.tabs[0].title, "Alpha");
    assert_eq!(m.active_id, "a");
}

#[test]
fn rename_trims_whitespace() {
    let mut m = model_two();
    m.rename("b", "  Beta  ");
    assert_eq!(m.tabs[1].title, "Beta");
}

#[test]
fn rename_empty_or_whitespace_keeps_previous_title() {
    let mut m = model_two();
    m.rename("a", "   ");
    assert_eq!(m.tabs[0].title, "A");
    m.rename("a", "");
    assert_eq!(m.tabs[0].title, "A");
}

#[test]
fn rename_unknown_id_is_noop() {
    let mut m = model_two();
    m.rename("missing", "Nope");
    assert_eq!(m, model_two());
}

#[test]
fn add_stub_appends_and_activates() {
    let mut m = model_two();
    let id = m.add_stub();
    assert_eq!(m.active_id, id);
    assert_eq!(m.tabs.len(), 3);
    assert_eq!(m.tabs.last().map(|tab| tab.id.as_str()), Some(id.as_str()));
}

#[test]
fn to_chrome_tabs_copies_tabs_and_active_id() {
    let model = model_two();

    let (tabs, active_id) = model.to_chrome_tabs();

    assert_eq!(tabs, model.tabs);
    assert_eq!(active_id, model.active_id);
}

#[test]
fn add_stub_skips_taken_numbers() {
    let mut m = TabModel {
        tabs: vec![
            ShellTabRecord {
                id: "tab-3".into(),
                title: "Three".into(),
            },
            ShellTabRecord {
                id: "tab-4".into(),
                title: "Four".into(),
            },
        ],
        active_id: "tab-3".into(),
    };
    let id = m.add_stub();
    assert_eq!(id, "tab-5");
    assert_eq!(m.tabs[2].title, "New Tab");
    let mut empty = TabModel {
        tabs: vec![],
        active_id: String::new(),
    };
    assert_eq!(empty.add_stub(), "tab-1");
    assert_eq!(empty.add_stub(), "tab-2");
    let mut ten = TabModel {
        tabs: (1..=9)
            .map(|n| ShellTabRecord {
                id: format!("tab-{}", n + 1),
                title: "T".into(),
            })
            .collect(),
        active_id: "tab-2".into(),
    };
    assert_eq!(ten.add_stub(), "tab-11");
}

#[test]
fn reorder_then_back_restores_strip() {
    let mut m = model_two();
    m.tabs.push(ShellTabRecord {
        id: "c".into(),
        title: "C".into(),
    });
    let before = m.clone();
    m.reorder(0, 2);
    assert_eq!(
        m.tabs.iter().map(|t| t.id.as_str()).collect::<Vec<_>>(),
        vec!["b", "c", "a"]
    );
    m.reorder(2, 0);
    assert_eq!(m, before);
}

#[test]
fn close_middle_active_tab_hands_over_to_next() {
    let mut m = model_two();
    m.tabs.push(ShellTabRecord {
        id: "c".into(),
        title: "C".into(),
    });
    m.select("b");
    m.close("b");
    assert_eq!(m.active_id, "c");
}
