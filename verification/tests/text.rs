use rzap::text::{str_eq, trim_trailing_slashes};

#[test]
fn str_eq_compares_to_the_letter() {
    assert!(str_eq("", ""));
    assert!(str_eq("abc", "abc"));
    assert!(str_eq("\u{e9}\u{4e00}", "\u{e9}\u{4e00}"));
    assert!(!str_eq("abc", "abd"));
    assert!(!str_eq("abc", "ab"));
    assert!(!str_eq("ab", "abc"));
    assert!(!str_eq("", "a"));
    assert!(!str_eq("e", "\u{e9}"));
    assert!(!str_eq("Abc", "abc"));
}

#[test]
fn trim_trailing_slashes_drops_only_slashes_at_the_end() {
    assert_eq!(trim_trailing_slashes(""), "");
    assert_eq!(trim_trailing_slashes("/"), "");
    assert_eq!(trim_trailing_slashes("///"), "");
    assert_eq!(trim_trailing_slashes("https://a.example"), "https://a.example");
    assert_eq!(trim_trailing_slashes("https://a.example/"), "https://a.example");
    assert_eq!(trim_trailing_slashes("https://a.example/api//"), "https://a.example/api");
    assert_eq!(trim_trailing_slashes("/a/b"), "/a/b");
    assert_eq!(trim_trailing_slashes("\u{e9}/\u{4e00}/"), "\u{e9}/\u{4e00}");
    assert_eq!(trim_trailing_slashes("a/ "), "a/ ");
}
