use tls_hot_reload::percent::{decode_url_path_safely, encode_url_path};

#[test]
fn plain_paths_are_left_as_they_are() {
    assert_eq!(encode_url_path(""), "");
    assert_eq!(encode_url_path("dir1/test3.txt"), "dir1/test3.txt");
    assert_eq!(encode_url_path("/a//b/"), "/a//b/");
    assert_eq!(encode_url_path("a b?c#d%e"), "a b?c#d%e");
}

#[test]
fn control_bytes_and_delete_are_escaped() {
    assert_eq!(encode_url_path("a\tb/c\nd"), "a%09b/c%0Ad");
    assert_eq!(encode_url_path("\u{0}/\u{1f}/\u{7f}/~"), "%00/%1F/%7F/~");
}

#[test]
fn bytes_outside_ascii_are_escaped_in_upper_case() {
    assert_eq!(encode_url_path("caf\u{e9}/x"), "caf%C3%A9/x");
    assert_eq!(encode_url_path("\u{1f496}"), "%F0%9F%92%96");
}

#[test]
fn escapes_are_decoded() {
    assert_eq!(decode_url_path_safely("a%20b"), "a b");
    assert_eq!(decode_url_path_safely("foo%20bar%3f"), "foo bar?");
    assert_eq!(decode_url_path_safely("%F0%9F%92%96"), "\u{1f496}");
    assert_eq!(decode_url_path_safely("dir1%2F..%2Fx"), "dir1/../x");
}

#[test]
fn text_without_escapes_decodes_to_itself() {
    assert_eq!(decode_url_path_safely(""), "");
    assert_eq!(decode_url_path_safely("dir1/test3.txt"), "dir1/test3.txt");
    assert_eq!(decode_url_path_safely("100%"), "100%");
    assert_eq!(decode_url_path_safely("%zz"), "%zz");
}

#[test]
fn bytes_that_are_not_utf8_become_the_replacement_character() {
    assert_eq!(decode_url_path_safely("%00%9F%92%96"), "\u{0}\u{fffd}\u{fffd}\u{fffd}");
}

#[test]
fn decoding_undoes_encoding() {
    for path in ["caf\u{e9}/a\tb", "dir1/dir2/\u{1f496}.txt", "plain"] {
        assert_eq!(decode_url_path_safely(&encode_url_path(path)), path);
    }
}
