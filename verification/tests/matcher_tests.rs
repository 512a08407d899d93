use xml_compare_api::matcher::{
    list_ignores_path, list_ignores_property, path_is_ignored, path_matches, property_is_ignored,
};

fn list(items: &[&str]) -> Vec<String> {
    items.iter().map(|s| s.to_string()).collect()
}

#[test]
fn path_is_ignored_exact() {
    assert!(path_is_ignored("/root/child", &list(&["/root/child"])));
}

#[test]
fn path_is_ignored_wildcard() {
    assert!(path_is_ignored("/root/child/grandchild", &list(&["/root/*"])));
}

#[test]
fn path_is_ignored_prefix_covers_its_parent() {
    assert!(path_is_ignored("/root", &list(&["/root/"])));
}

#[test]
fn path_is_ignored_other_root() {
    assert!(!path_is_ignored("/other/child", &list(&["/root/*"])));
}

#[test]
fn path_is_ignored_any_pattern_of_the_list() {
    assert!(path_is_ignored("/b/c", &list(&["/a", "/x/*", "/b/"])));
    assert!(!path_is_ignored("/b/c", &list(&["/a", "/x/*", "/b"])));
    assert!(!path_is_ignored("/b/c", &list(&[])));
}

#[test]
fn path_matches_wildcard_is_a_plain_prefix() {
    assert!(path_matches("/rootling", "/root*"));
    assert!(path_matches("/root", "/root*"));
    assert!(path_matches("/anything", "*"));
    assert!(!path_matches("/roo", "/root*"));
}

#[test]
fn path_matches_wildcard_only_at_the_end() {
    assert!(!path_matches("/root/child", "/*/child"));
    assert!(path_matches("/*/child", "/*/child"));
}

#[test]
fn path_matches_prefix_needs_the_slash() {
    assert!(!path_matches("/rootling", "/root/"));
    assert!(path_matches("/root/", "/root/"));
    assert!(!path_matches("/roo", "/root/"));
}

#[test]
fn path_matches_plain_pattern_is_exact_only() {
    assert!(!path_matches("/root/child", "/root"));
    assert!(!path_matches("/root", "/root/child"));
    assert!(path_matches("", ""));
    assert!(!path_matches("/root", ""));
}

#[test]
fn property_is_ignored_is_membership() {
    assert!(property_is_ignored("date", &list(&["id", "date"])));
    assert!(!property_is_ignored("dat", &list(&["id", "date"])));
    assert!(!property_is_ignored("date", &list(&[])));
}

#[test]
fn absent_lists_ignore_nothing() {
    assert!(!list_ignores_path("/a", &None));
    assert!(!list_ignores_property("a", &None));
    assert!(list_ignores_path("/a", &Some(list(&["/a"]))));
    assert!(list_ignores_property("a", &Some(list(&["a"]))));
}
