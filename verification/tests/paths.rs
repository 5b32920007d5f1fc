use hpptest::path_util::{has_lib_extension, parent_dir, path_root_removed, with_test_extension};
use hpptest::unit::Test;

#[test]
fn lib_extension_recognized() {
    assert!(has_lib_extension("a.hpp"));
    assert!(has_lib_extension("/lib/graph/dijkstra.hpp"));
    assert!(has_lib_extension("a.b.hpp"));
    assert!(has_lib_extension("dir.hpp/x.hpp"));
}

#[test]
fn lib_extension_rejected() {
    assert!(!has_lib_extension("a.cpp"));
    assert!(!has_lib_extension("a.hp"));
    assert!(!has_lib_extension("hpp"));
    assert!(!has_lib_extension(""));
    // a file name that is nothing but the extension has no stem
    assert!(!has_lib_extension(".hpp"));
    assert!(!has_lib_extension("/lib/.hpp"));
    // the extension must be on the file name, not on a directory
    assert!(!has_lib_extension("dir.hpp/readme"));
}

#[test]
fn project_path_replaces_extension() {
    assert_eq!(with_test_extension("a.hpp"), "a.test");
    assert_eq!(with_test_extension("/root/lib/union_find.hpp"), "/root/lib/union_find.test");
    assert_eq!(with_test_extension("a.b.hpp"), "a.b.test");
}

#[test]
fn new_test_pairs_library_with_project() {
    let t = Test::new(String::from("/lib/a.hpp"));
    assert_eq!(t.library, "/lib/a.hpp");
    assert_eq!(t.project, "/lib/a.test");
}

#[test]
fn renaming_library_renames_project() {
    let before = Test::new(String::from("/lib/old_name.hpp"));
    let after = Test::new(String::from("/lib/new_name.hpp"));
    assert_eq!(before.project, "/lib/old_name.test");
    assert_eq!(after.project, "/lib/new_name.test");
}

#[test]
fn root_removed_strips_prefix() {
    assert_eq!(path_root_removed("/root/lib/a.hpp", "/root"), "lib/a.hpp");
    assert_eq!(path_root_removed("/root/a.hpp", "/root"), "a.hpp");
}

#[test]
fn root_removed_keeps_non_prefixed_path() {
    assert_eq!(path_root_removed("/other/a.hpp", "/root"), "/other/a.hpp");
    // equal to the root itself: no separator follows, path stays whole
    assert_eq!(path_root_removed("/root", "/root"), "/root");
    // a sibling whose name merely extends the root is not inside it
    assert_eq!(path_root_removed("/rootx/a.hpp", "/root"), "/rootx/a.hpp");
}

#[test]
fn parent_dir_walks_up() {
    assert_eq!(parent_dir("/a/b/c"), Some(String::from("/a/b")));
    assert_eq!(parent_dir("/a"), Some(String::from("/")));
    assert_eq!(parent_dir("/"), None);
}
