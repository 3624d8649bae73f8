use servedir::paths::{path_contained, resolve_canonical, root_relative};

#[test]
fn root_is_contained() {
    assert!(path_contained("/srv/files", "/srv/files"));
}

#[test]
fn child_is_contained() {
    assert!(path_contained("/srv/files", "/srv/files/a.txt"));
    assert!(path_contained("/srv/files", "/srv/files/sub/x.png"));
}

#[test]
fn sibling_with_same_prefix_rejected() {
    assert!(!path_contained("/srv/files", "/srv/files2"));
    assert!(!path_contained("/srv/files", "/srv/files2/a.txt"));
}

#[test]
fn outside_path_rejected() {
    assert!(!path_contained("/srv/files", "/etc/passwd"));
    assert!(!path_contained("/srv/files", "/srv"));
    assert!(!path_contained("/srv/files", ""));
}

#[test]
fn resolve_keeps_contained_path() {
    let r = resolve_canonical("/srv/files", Some(String::from("/srv/files/a.txt")));
    assert_eq!(r, Some(String::from("/srv/files/a.txt")));
}

#[test]
fn resolve_rejects_escape() {
    let r = resolve_canonical("/srv/files", Some(String::from("/etc/passwd")));
    assert_eq!(r, None);
}

#[test]
fn resolve_rejects_nonexistent() {
    let r = resolve_canonical("/srv/files", None);
    assert_eq!(r, None);
}

#[test]
fn relative_of_root_is_empty() {
    assert_eq!(root_relative("/srv/files", "/srv/files"), "");
}

#[test]
fn relative_of_child_keeps_separator() {
    assert_eq!(root_relative("/srv/files", "/srv/files/sub"), "/sub");
    assert_eq!(root_relative("/srv/files", "/srv/files/sub/x.png"), "/sub/x.png");
}

#[test]
fn filesystem_root_contains_its_children() {
    assert!(path_contained("/", "/"));
    assert!(path_contained("/", "/etc"));
    assert!(path_contained("/", "/etc/passwd"));
    assert!(!path_contained("/", ""));
}

#[test]
fn resolve_keeps_child_of_filesystem_root() {
    let r = resolve_canonical("/", Some(String::from("/etc")));
    assert_eq!(r, Some(String::from("/etc")));
}

#[test]
fn relative_under_filesystem_root() {
    assert_eq!(root_relative("/", "/"), "");
    assert_eq!(root_relative("/", "/etc"), "etc");
}
