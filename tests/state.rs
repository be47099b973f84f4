use pbgui_tree::expansion::{CatalogError, CatalogQuery};
use pbgui_tree::state::TreeState;
use pbgui_tree::tree::NodeRef;

fn strings(v: &[&str]) -> Vec<String> {
    v.iter().map(|s| s.to_string()).collect()
}

fn visible(st: &TreeState) -> Vec<bool> {
    let f = st.filter();
    (0..f.len()).map(|i| f.is_visible(i)).collect()
}

#[test]
fn filter_follows_top_level_changes() {
    let mut st = TreeState::new();
    st.set_filter_text("a");
    st.set_packages(&strings(&["foo", "bar", "bla"]));
    assert_eq!(visible(&st), vec![false, true, true]);
    st.add_package(&"mari".to_string());
    assert_eq!(visible(&st), vec![false, true, true, true]);
    st.add_package(&"nuke".to_string());
    assert_eq!(visible(&st), vec![false, true, true, true, false]);
    st.clear_packages();
    assert!(visible(&st).is_empty());
}

#[test]
fn clearing_filter_text_shows_every_row() {
    let mut st = TreeState::new();
    st.set_packages(&strings(&["foo", "bar", "bla"]));
    assert_eq!(visible(&st), vec![true, true, true]);
    st.set_filter_text("foo");
    assert_eq!(visible(&st), vec![true, false, false]);
    st.set_filter_text("");
    assert_eq!(visible(&st), vec![true, true, true]);
}

#[test]
fn expansion_keeps_the_mask() {
    let mut st = TreeState::new();
    st.set_packages(&strings(&["foo", "bar"]));
    st.set_filter_text("ba");
    let foo = NodeRef::Package(0);
    assert_eq!(st.expand(foo), Some(CatalogQuery::Versions("foo".to_string())));
    assert_eq!(st.reply(Ok(strings(&["1.0.0", "2.0.0"]))), Ok(true));
    assert_eq!(st.store().child_count(foo), 2);
    assert_eq!(visible(&st), vec![false, true]);
    assert!(!st.collapse(foo));
    assert_eq!(st.expand(foo), None);
}

#[test]
fn failed_reply_leaves_row_expandable() {
    let mut st = TreeState::new();
    st.set_packages(&strings(&["foo"]));
    let foo = NodeRef::Package(0);
    st.expand(foo);
    let r = st.reply(Err(CatalogError::Connectivity("down".to_string())));
    assert_eq!(r, Err(CatalogError::Connectivity("down".to_string())));
    assert!(st.collapse(foo));
    assert_eq!(st.expand(foo), Some(CatalogQuery::Versions("foo".to_string())));
}

#[test]
fn add_child_through_state() {
    let mut st = TreeState::new();
    st.set_packages(&strings(&["foo"]));
    st.set_filter_text("x");
    st.add_child(NodeRef::Package(0), &"1.0".to_string());
    assert_eq!(st.store().child_count(NodeRef::Package(0)), 2);
    assert_eq!(visible(&st), vec![false]);
    // a row with an added child is no longer taken for unexpanded
    assert_eq!(st.expand(NodeRef::Package(0)), None);
}
