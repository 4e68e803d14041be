use tls_hot_reload::url_path::format_url_path_safely;

#[test]
fn parent_parts_cannot_climb_above_the_root() {
    assert_eq!(format_url_path_safely("../girl/love/eat.txt"), "girl/love/eat.txt");
    assert_eq!(format_url_path_safely("..\\girl\\love\\eat.txt"), "girl/love/eat.txt");
    assert_eq!(format_url_path_safely("a/../../b"), "b");
}

#[test]
fn parent_part_removes_the_part_before_it() {
    assert_eq!(format_url_path_safely("dir1/../dir1/test3.txt"), "dir1/test3.txt");
    assert_eq!(format_url_path_safely("dir1\\..\\dir1\\test3.txt"), "dir1/test3.txt");
}

#[test]
fn empty_and_dot_parts_are_dropped() {
    assert_eq!(format_url_path_safely(""), "");
    assert_eq!(format_url_path_safely("/"), "");
    assert_eq!(format_url_path_safely("."), "");
    assert_eq!(format_url_path_safely(".."), "");
    assert_eq!(format_url_path_safely("//a//b//"), "a/b");
    assert_eq!(format_url_path_safely("./a/./b/."), "a/b");
    assert_eq!(format_url_path_safely("/dir1/"), "dir1");
}

#[test]
fn names_that_only_look_like_dots_are_kept() {
    assert_eq!(format_url_path_safely("..."), "...");
    assert_eq!(format_url_path_safely(".a/..b/c."), ".a/..b/c.");
    assert_eq!(format_url_path_safely("a/.../b"), "a/.../b");
    assert_eq!(format_url_path_safely(". /.. "), ". /.. ");
}

#[test]
fn both_separators_cut_and_slash_joins() {
    assert_eq!(format_url_path_safely("a\\b/c"), "a/b/c");
    assert_eq!(format_url_path_safely("dir1/dir2/test3.txt"), "dir1/dir2/test3.txt");
    assert_eq!(format_url_path_safely("a/b/c/../../d"), "a/d");
    assert_eq!(format_url_path_safely("a/b/../../../c/.."), "");
}

#[test]
fn non_ascii_parts_pass_through() {
    assert_eq!(format_url_path_safely("caf\u{e9}/\u{1f496}/../x"), "caf\u{e9}/x");
}

#[test]
fn normal_form_is_a_fixed_point() {
    for path in ["a/../b//c\\.\\d", "../..", "x/y/z", "\\\\server\\share\\..\\file"] {
        let once = format_url_path_safely(path);
        assert_eq!(format_url_path_safely(&once), once);
        assert!(!once.contains('\\'));
        assert!(!once.starts_with('/') && !once.ends_with('/'));
        assert!(once.split('/').all(|part| part != ".." && part != "."));
    }
}
