use pbgui_tree::filter::{contains, FilterIndex};
use pbgui_tree::tree::TreeStore;

fn store_with(names: &[&str]) -> TreeStore {
    let mut store = TreeStore::new();
    let v: Vec<String> = names.iter().map(|s| s.to_string()).collect();
    store.set_packages(&v);
    store
}

fn mask(f: &FilterIndex) -> Vec<bool> {
    (0..f.len()).map(|i| f.is_visible(i)).collect()
}

#[test]
fn empty_filter_twice_shows_all() {
    let store = store_with(&["foo", "bar", "bla"]);
    let mut f = FilterIndex::new();
    f.apply(&store, "");
    assert_eq!(mask(&f), vec![true, true, true]);
    f.apply(&store, "");
    assert_eq!(mask(&f), vec![true, true, true]);
}

#[test]
fn clearing_the_filter_restores_all_rows() {
    let store = store_with(&["foo", "bar", "bla"]);
    let mut f = FilterIndex::new();
    f.apply(&store, "foo");
    assert_eq!(mask(&f), vec![true, false, false]);
    f.apply(&store, "");
    assert_eq!(mask(&f), vec![true, true, true]);
}

#[test]
fn filter_matches_substrings_case_sensitively() {
    let store = store_with(&["foo", "bar", "bla", "Bar"]);
    let mut f = FilterIndex::new();
    f.apply(&store, "a");
    assert_eq!(mask(&f), vec![false, true, true, true]);
    f.apply(&store, "Ba");
    assert_eq!(mask(&f), vec![false, false, false, true]);
    f.apply(&store, "zzz");
    assert_eq!(mask(&f), vec![false, false, false, false]);
}

#[test]
fn filter_follows_a_new_row_set() {
    let mut store = store_with(&["foo", "bar"]);
    let mut f = FilterIndex::new();
    f.apply(&store, "o");
    assert_eq!(mask(&f), vec![true, false]);
    store.set_packages(&vec!["bob".to_string(), "ann".to_string(), "otto".to_string()]);
    f.apply(&store, "o");
    assert_eq!(mask(&f), vec![true, false, true]);
}

#[test]
fn filter_over_no_rows() {
    let store = TreeStore::new();
    let mut f = FilterIndex::new();
    f.apply(&store, "x");
    assert_eq!(f.len(), 0);
}

#[test]
fn contains_cases() {
    assert!(contains("foobar", "oba"));
    assert!(contains("foobar", "foobar"));
    assert!(contains("foobar", "r"));
    assert!(contains("foo", ""));
    assert!(contains("", ""));
    assert!(!contains("fo", "foo"));
    assert!(!contains("foobar", "boo"));
    assert!(!contains("Foo", "foo"));
    assert!(contains("naïve", "ïv"));
}
