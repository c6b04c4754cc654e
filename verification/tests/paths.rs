use oxc_language_server::paths::{file_path, is_within};
use oxc_language_server::text::{begins_with, has_char, same_optional_text, same_text, strip};

#[test]
fn file_path_of_an_address() {
    assert_eq!(file_path("file:///etc/passwd").as_deref(), Some("/etc/passwd"));
}

#[test]
fn file_path_is_decoded() {
    assert_eq!(file_path("file:///a%20b/c%C3%A9").as_deref(), Some("/a b/c\u{e9}"));
    assert_eq!(file_path("file:///a%FF").as_deref(), Some("/a\u{fffd}"));
}

#[test]
fn file_path_of_another_scheme() {
    assert_eq!(file_path("untitled:Untitled-1").as_deref(), Some("Untitled-1"));
}

#[test]
fn no_file_path_without_an_address() {
    assert_eq!(file_path("not an address"), None);
}

#[test]
fn within_goes_by_components() {
    assert!(is_within("/ws/src/a.js", "/ws"));
    assert!(is_within("/ws", "/ws"));
    assert!(is_within("/ws/", "/ws"));
    assert!(is_within("/ws//src/./a.js", "/ws/src"));
    assert!(!is_within("/ws-other/a.js", "/ws"));
    assert!(!is_within("/w", "/ws"));
    assert!(!is_within("ws/a.js", "/ws"));
}

#[test]
fn within_agrees_with_the_standard_library() {
    let paths =
        ["", "/", "/a", "/a/b", "/a/bc", "/a//b/", "a", "a/b", "./a", "../a", "/a/../b", "/a/./b"];
    for path in paths {
        for base in paths {
            let expected = std::path::Path::new(path).starts_with(base);
            assert_eq!(is_within(path, base), expected, "{path} in {base}");
        }
    }
}

#[test]
fn text_helpers() {
    assert!(same_text("a\u{e9}", "a\u{e9}"));
    assert!(!same_text("a", "A"));
    assert!(same_optional_text(&None, &None));
    assert!(!same_optional_text(&None, &Some(String::new())));
    assert!(same_optional_text(&Some("x".to_string()), &Some("x".to_string())));
    assert!(begins_with("\u{e9}a", "\u{e9}"));
    assert!(begins_with("a", ""));
    assert!(!begins_with("a", "ab"));
    assert_eq!(strip("./a", "./"), "a");
    assert_eq!(strip("a", "./"), "a");
    assert!(has_char("a/b", '/'));
    assert!(!has_char("ab", '/'));
}
