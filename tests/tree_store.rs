use pbgui_tree::tree::{NodeKind, NodeRef, TreeStore};

fn strings(v: &[&str]) -> Vec<String> {
    v.iter().map(|s| s.to_string()).collect()
}

#[test]
fn set_packages_replaces_all_rows() {
    let mut store = TreeStore::new();
    store.set_packages(&strings(&["maya", "nuke"]));
    store.set_packages(&strings(&["houdini"]));
    assert_eq!(store.len(), 1);
    assert_eq!(store.package_label(0), "houdini");
    assert!(!store.is_valid(NodeRef::Package(1)));
}

#[test]
fn clear_packages_removes_everything() {
    let mut store = TreeStore::new();
    store.set_packages(&strings(&["foo", "bar"]));
    store.clear_packages();
    assert_eq!(store.len(), 0);
    assert!(!store.is_valid(NodeRef::Package(0)));
}

#[test]
fn add_package_appends_a_plain_row() {
    let mut store = TreeStore::new();
    store.set_packages(&strings(&["foo"]));
    store.add_package(&"mari".to_string());
    assert_eq!(store.len(), 2);
    assert_eq!(store.package_label(1), "mari");
    assert_eq!(store.child_count(NodeRef::Package(1)), 0);
    assert_eq!(store.kind(NodeRef::Package(1)), NodeKind::Package);
}

#[test]
fn add_child_appends_after_existing_children() {
    let mut store = TreeStore::new();
    store.set_packages(&strings(&["foo"]));
    let foo = NodeRef::Package(0);
    store.add_child(foo, &"1.0.0".to_string());
    assert_eq!(store.child_count(foo), 2);
    assert!(store.child_is_placeholder(foo, 0));
    assert!(!store.child_is_placeholder(foo, 1));
    assert!(!store.is_valid(NodeRef::Version(0, 0)));
    let v = NodeRef::Version(0, 1);
    assert_eq!(store.label(v), "1.0.0");
    assert_eq!(store.child_count(v), 0);
    store.add_child(v, &"linux".to_string());
    assert_eq!(store.label(NodeRef::Platform(0, 1, 0)), "linux");
}

#[test]
fn replace_children_drops_placeholder_and_appends() {
    let mut store = TreeStore::new();
    store.set_packages(&strings(&["foo"]));
    let foo = NodeRef::Package(0);
    store.replace_children(foo, &strings(&["1.0", "2.0"]), false);
    assert_eq!(store.child_count(foo), 2);
    assert_eq!(store.child_count(NodeRef::Version(0, 0)), 0);
    assert_eq!(store.label(NodeRef::Version(0, 1)), "2.0");
}

#[test]
fn replace_children_keeps_later_children() {
    let mut store = TreeStore::new();
    store.set_packages(&strings(&["foo"]));
    let foo = NodeRef::Package(0);
    store.add_child(foo, &"0.9".to_string());
    store.replace_children(foo, &strings(&["1.0"]), true);
    assert_eq!(store.child_count(foo), 2);
    assert_eq!(store.label(NodeRef::Version(0, 0)), "0.9");
    assert_eq!(store.label(NodeRef::Version(0, 1)), "1.0");
    assert_eq!(store.child_count(NodeRef::Version(0, 0)), 0);
    assert_eq!(store.child_count(NodeRef::Version(0, 1)), 1);
    assert!(store.child_is_placeholder(NodeRef::Version(0, 1), 0));
}

#[test]
fn references_into_missing_rows_are_invalid() {
    let mut store = TreeStore::new();
    store.set_packages(&strings(&["foo"]));
    assert!(store.is_valid(NodeRef::Package(0)));
    assert!(!store.is_valid(NodeRef::Version(0, 0)));
    assert!(!store.is_valid(NodeRef::Version(1, 0)));
    assert!(!store.is_valid(NodeRef::Platform(0, 0, 0)));
}
