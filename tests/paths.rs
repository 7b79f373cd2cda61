use coldfusion_ls::vfs_path::{VirtualFsPath, VirtualPath};

fn real_path(s: &str) -> VirtualFsPath {
    VirtualFsPath::new_real_path(s.to_string())
}

fn virtual_path(s: &str) -> VirtualFsPath {
    VirtualFsPath::new_virtual_path(s.to_string())
}

#[test]
fn virtual_pop_removes_last_component() {
    let mut path = VirtualPath("/foo/bar".to_string());
    assert!(path.pop());
    assert_eq!(path.0, "/foo");
    assert!(path.pop());
    assert_eq!(path.0, "");
    assert!(!path.pop());
    assert_eq!(path.0, "");
}

#[test]
fn virtual_join_resolves_leading_segments() {
    let base = VirtualPath("/a/b".to_string());
    assert_eq!(base.join("../c").unwrap().0, "/a/c");
    assert_eq!(base.join("./x").unwrap().0, "/a/b/x");
    assert_eq!(base.join("././x").unwrap().0, "/a/b/x");
    assert_eq!(base.join("y/z").unwrap().0, "/a/b/y/z");
    assert!(base.join("../../../x").is_none());
}

#[test]
fn virtual_starts_with_is_textual() {
    let a = VirtualPath("/foobar".to_string());
    assert!(a.starts_with(&VirtualPath("/foo".to_string())));
    assert!(!a.starts_with(&VirtualPath("/bar".to_string())));
    assert_eq!(a.strip_prefix(&VirtualPath("/foo".to_string())), None);
    let b = VirtualPath("/foo/bar".to_string());
    assert_eq!(b.strip_prefix(&VirtualPath("/foo".to_string())), Some("bar".to_string()));
}

#[test]
fn name_and_extension_cases() {
    let n = |s: &str| VirtualPath(s.to_string()).name_and_extension();
    assert_eq!(n("/foo/bar.baz.rs"), Some(("bar.baz".to_string(), Some("rs".to_string()))));
    assert_eq!(n("/foo/.bashrc"), Some((".bashrc".to_string(), None)));
    assert_eq!(n("/foo/noext"), Some(("noext".to_string(), None)));
    assert_eq!(n("/foo/dir/"), Some(("dir".to_string(), None)));
    assert_eq!(n("/foo//"), None);
    assert_eq!(n("file."), Some(("file".to_string(), Some("".to_string()))));
    assert_eq!(real_path("/x/a.cfc").name_and_extension(), Some(("a".to_string(), Some("cfc".to_string()))));
}

#[test]
fn real_paths_work_by_component() {
    assert!(real_path("/foo/bar").starts_with(&real_path("/foo")));
    assert!(real_path("/foo").starts_with(&real_path("/")));
    assert!(!real_path("/foobar").starts_with(&real_path("/foo")));
    assert!(virtual_path("/foobar").starts_with(&virtual_path("/foo")));
    assert!(!real_path("/foo/bar").starts_with(&virtual_path("/foo")));
    assert_eq!(real_path("/foo/bar").strip_prefix(&real_path("/foo")), Some("bar".to_string()));
    assert_eq!(real_path("/foo/bar").strip_prefix(&real_path("/")), Some("foo/bar".to_string()));
    assert_eq!(real_path("/foo").strip_prefix(&virtual_path("/foo")), None);
}

#[test]
fn real_parent_stops_at_root() {
    assert_eq!(real_path("/foo/bar").parent(), Some(real_path("/foo")));
    assert_eq!(real_path("/foo").parent(), Some(real_path("/")));
    assert_eq!(real_path("/").parent(), None);
    assert_eq!(virtual_path("/foo").parent(), Some(virtual_path("")));
    let mut p = real_path("/");
    assert!(!p.pop());
    assert_eq!(p, real_path("/"));
}

#[test]
fn real_join() {
    assert_eq!(real_path("/a/b").join("../c"), Some(real_path("/a/c")));
    assert_eq!(real_path("/").join("x"), Some(real_path("/x")));
    assert_eq!(real_path("/a").join("../x"), Some(real_path("/x")));
    assert_eq!(real_path("/a").join("../../x"), None);
    assert_eq!(virtual_path("a").join("b"), Some(virtual_path("a/b")));
}

#[test]
fn as_path_only_for_real_identities() {
    assert_eq!(real_path("/a").as_path().map(|p| p.as_str().to_string()), Some("/a".to_string()));
    assert!(virtual_path("/a").as_path().is_none());
    assert_ne!(real_path("/a"), virtual_path("/a"));
}

#[test]
fn real_paths_are_normalised() {
    assert_eq!(real_path("/a/./b/../c//d/").as_path().unwrap().as_str(), "/a/c/d");
    assert_eq!(real_path("/..").as_path().unwrap().as_str(), "/");
    assert_eq!(real_path("/").as_path().unwrap().as_str(), "/");
    assert_eq!(real_path("/a/b").join("c/../d"), Some(real_path("/a/b/d")));
    assert_eq!(real_path("/a/b").join("./c/"), Some(real_path("/a/b/c")));
    assert_eq!(virtual_path("/a/b").join("c/../d"), Some(virtual_path("/a/b/c/../d")));
}

#[test]
fn from_abs_path_normalises() {
    let abs = coldfusion_ls::vfs_path::AbsPathBuf::try_from("/x/../y/.").unwrap();
    assert_eq!(abs.as_str(), "/x/../y/.");
    assert_eq!(VirtualFsPath::from_abs_path(abs), real_path("/y"));
}

#[test]
fn virtual_join_keeps_base_separator() {
    let base = VirtualPath("/foo/".to_string());
    assert_eq!(base.join("bar").unwrap().0, "/foo//bar");
    assert_eq!(virtual_path("/foo/").join("bar"), Some(virtual_path("/foo//bar")));
    assert_eq!(real_path("/foo").join("bar"), Some(real_path("/foo/bar")));
}
