use opencore_rustroops::id_list::reorder_ids;
use opencore_rustroops::id_map::IdMap;
use opencore_rustroops::id_set::IdSet;
use opencore_rustroops::text::{
    contains_ignore_ascii_case, decimal_string, str_eq, str_is_blank, trim_str,
};

#[test]
fn trim_removes_unicode_whitespace_only_at_edges() {
    assert_eq!(trim_str("  a b \t\n"), "a b");
    assert_eq!(trim_str("\u{3000}x\u{00A0}"), "x");
    assert_eq!(trim_str(""), "");
    assert!(str_is_blank(" \u{2003} "));
    assert!(!str_is_blank(" . "));
}

#[test]
fn case_insensitive_search_folds_ascii_only() {
    assert!(contains_ignore_ascii_case("Theme transition", "THEME"));
    assert!(contains_ignore_ascii_case("abc", ""));
    assert!(!contains_ignore_ascii_case("ab", "abc"));
    assert!(!contains_ignore_ascii_case("Ä", "ä"));
}

#[test]
fn decimal_rendering_has_no_leading_zeros() {
    assert_eq!(decimal_string(0), "0");
    assert_eq!(decimal_string(7), "7");
    assert_eq!(decimal_string(10), "10");
    assert_eq!(decimal_string(4096), "4096");
}

#[test]
fn string_equality_compares_characters() {
    assert!(str_eq("tab-1", "tab-1"));
    assert!(!str_eq("tab-1", "tab-10"));
}

#[test]
fn reorder_ids_keeps_ids_and_places_dragged_next_to_target() {
    let mut order: Vec<String> = ["a", "b", "c", "d"].iter().map(|s| s.to_string()).collect();
    reorder_ids(&mut order, "a", "c", false);
    assert_eq!(order, vec!["b", "a", "c", "d"]);
    reorder_ids(&mut order, "d", "b", true);
    assert_eq!(order, vec!["b", "d", "a", "c"]);
    reorder_ids(&mut order, "x", "b", true);
    assert_eq!(order, vec!["b", "d", "a", "c"]);
}

#[test]
fn id_set_and_map_behave_as_set_and_map() {
    let mut set = IdSet::new();
    set.insert("a");
    set.insert("b");
    set.insert("a");
    assert_eq!(set.first().map(|s| s.as_str()), Some("a"));
    set.remove("a");
    assert!(!set.contains("a"));
    assert_eq!(set.first().map(|s| s.as_str()), Some("b"));
    set.clear();
    assert!(set.is_empty());
    let mut map: IdMap<u32> = IdMap::new();
    map.insert("k", 1);
    map.insert("k", 2);
    assert_eq!(map.get("k"), Some(&2));
    assert_eq!(map.get("z"), None);
}
