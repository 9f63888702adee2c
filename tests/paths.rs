use dropbox_dir::{join, strip_leading_separators, SmartPath};

#[test]
fn relative_path_is_joined_to_root() {
    let sp = SmartPath::new("/home/u/Dropbox", "photos/2020");
    assert_eq!(sp.local(), "/home/u/Dropbox/photos/2020");
    assert_eq!(join("/home/u/Dropbox", "photos/2020"), sp.local());
}

#[test]
fn leading_separator_is_dropped() {
    let with = SmartPath::new("/home/u/Dropbox", "/photos/2020");
    let without = SmartPath::new("/home/u/Dropbox", "photos/2020");
    assert_eq!(with.local(), without.local());
    assert_eq!(with.local(), "/home/u/Dropbox/photos/2020");
    assert_eq!(with.remote(), "/photos/2020");
}

#[test]
fn several_leading_separators_are_dropped() {
    let sp = SmartPath::new("/root", "///a/b");
    assert_eq!(sp.local(), "/root/a/b");
    assert_eq!(sp.remote(), "/a/b");
}

#[test]
fn empty_path_is_root() {
    let sp = SmartPath::new("/home/u/Dropbox", "");
    assert_eq!(sp.local(), "/home/u/Dropbox");
    assert_eq!(sp.remote(), "/");
}

#[test]
fn lone_separator_is_root() {
    let sp = SmartPath::new("/home/u/Dropbox", "/");
    assert_eq!(sp.local(), "/home/u/Dropbox");
    assert_eq!(sp.remote(), "/");
}

#[test]
fn root_with_trailing_separator_gets_no_second_one() {
    let sp = SmartPath::new("/home/u/Dropbox/", "docs");
    assert_eq!(sp.local(), "/home/u/Dropbox/docs");
}

#[test]
fn remote_is_rooted_at_separator() {
    let sp = SmartPath::new("C:/Users/u/Dropbox", "a/b/c.txt");
    assert_eq!(sp.remote(), "/a/b/c.txt");
    assert_eq!(sp.local(), "C:/Users/u/Dropbox/a/b/c.txt");
}

#[test]
fn traversal_segments_are_kept() {
    let sp = SmartPath::new("/d", "../x/./y");
    assert_eq!(sp.local(), "/d/../x/./y");
    assert_eq!(sp.remote(), "/../x/./y");
}

#[test]
fn strip_keeps_inner_separators() {
    assert_eq!(strip_leading_separators("//a//b/"), "a//b/");
    assert_eq!(strip_leading_separators("a"), "a");
    assert_eq!(strip_leading_separators("///"), "");
    assert_eq!(strip_leading_separators(""), "");
}

#[test]
fn join_follows_path_rules() {
    assert_eq!(join("/a", "b"), "/a/b");
    assert_eq!(join("/a/", "b"), "/a/b");
    assert_eq!(join("", "b"), "b");
    assert_eq!(join("/a", "/b"), "/b");
    assert_eq!(join("/a", ""), "/a/");
    assert_eq!(join("/", ""), "/");
}

#[test]
fn non_ascii_paths_are_kept() {
    let sp = SmartPath::new("/home/zoë/Dropbox", "/fotos/été");
    assert_eq!(sp.local(), "/home/zoë/Dropbox/fotos/été");
    assert_eq!(sp.remote(), "/fotos/été");
}
