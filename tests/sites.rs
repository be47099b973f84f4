use pbgui_tree::sites::site_index;

fn strings(v: &[&str]) -> Vec<String> {
    v.iter().map(|s| s.to_string()).collect()
}

#[test]
fn current_site_is_selected() {
    assert_eq!(site_index(&strings(&["local", "portland", "hyderabad"]), &"portland".to_string()), 1);
}

#[test]
fn last_of_equal_sites_wins() {
    assert_eq!(site_index(&strings(&["a", "b", "a", "c"]), &"a".to_string()), 2);
}

#[test]
fn unknown_site_selects_first() {
    assert_eq!(site_index(&strings(&["a", "b"]), &"z".to_string()), 0);
    assert_eq!(site_index(&Vec::new(), &"z".to_string()), 0);
}

