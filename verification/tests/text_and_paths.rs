use nanuak_dictionary::lexical::{lex_le_exec, sort_lex};
use nanuak_dictionary::paths::join_path;
use nanuak_dictionary::text::{chars_of, replace, same_chars, text};

fn chars(s: &str) -> Vec<char> {
    s.chars().collect()
}

#[test]
fn replace_renames_every_occurrence() {
    let main_rs = "use v033_dictionary::state::State;\nfn main() { v033_dictionary::run(); }\n";
    assert_eq!(
        replace(main_rs, "v033_dictionary", "v036_dictionary"),
        "use v036_dictionary::state::State;\nfn main() { v036_dictionary::run(); }\n"
    );
}

#[test]
fn replace_agrees_with_std() {
    let cases = [
        ("aaaa", "aa", "b"),
        ("aaa", "aa", "b"),
        ("abcabc", "abc", ""),
        ("abc", "", "x"),
        ("", "", "x"),
        ("", "a", "x"),
        ("xyz", "q", "r"),
        ("v1-v1-v1", "v1", "v10"),
        ("h\u{e9}llo h\u{e9}", "\u{e9}", "e"),
    ];
    for (s, from, to) in cases {
        assert_eq!(replace(s, from, to), s.replace(from, to), "{s:?} {from:?} {to:?}");
    }
}

#[test]
fn replace_with_empty_pattern_surrounds_every_character() {
    assert_eq!(replace("abc", "", "x"), "xaxbxcx");
}

#[test]
fn replace_without_occurrence_keeps_text() {
    assert_eq!(replace("fn main() {}", "v1_dictionary", "v2_dictionary"), "fn main() {}");
}

#[test]
fn replace_with_itself_keeps_text() {
    assert_eq!(replace("v1 and v1", "v1", "v1"), "v1 and v1");
}

#[test]
fn join_adds_a_separator_when_needed() {
    assert_eq!(join_path("/w", "v3"), "/w/v3");
    assert_eq!(join_path("/w/", "v3"), "/w/v3");
    assert_eq!(join_path("", "v3"), "v3");
    assert_eq!(join_path("/w", "/abs"), "/abs");
    assert_eq!(join_path("/w", ""), "/w/");
}

#[test]
fn join_agrees_with_std() {
    for (dir, name) in [("/w", "v3"), ("/w/", "v3"), ("", "v3"), ("/w", "/abs"), ("a/b", "c/d"), ("/w", "")] {
        let expected = std::path::Path::new(dir).join(name).display().to_string();
        assert_eq!(join_path(dir, name), expected, "{dir:?} {name:?}");
    }
}

#[test]
fn lexicographic_comparison() {
    assert!(lex_le_exec(&chars("abc"), &chars("abd")));
    assert!(!lex_le_exec(&chars("abd"), &chars("abc")));
    assert!(lex_le_exec(&chars("ab"), &chars("abc")));
    assert!(!lex_le_exec(&chars("abc"), &chars("ab")));
    assert!(lex_le_exec(&chars(""), &chars("")));
    assert!(lex_le_exec(&chars("a"), &chars("a")));
    assert!(lex_le_exec(&chars("Z"), &chars("a")));
}

#[test]
fn sorting_orders_lexicographically() {
    let items = vec![chars("v2"), chars("v10"), chars("v1"), chars(""), chars("v1")];
    let sorted = sort_lex(items);
    assert_eq!(sorted, vec![chars(""), chars("v1"), chars("v1"), chars("v10"), chars("v2")]);
}

#[test]
fn text_helpers() {
    assert_eq!(chars_of("h\u{e9}"), vec!['h', '\u{e9}']);
    assert_eq!(text("abc"), "abc");
    assert!(same_chars(&chars("abc"), &chars("abc")));
    assert!(!same_chars(&chars("abc"), &chars("abd")));
    assert!(!same_chars(&chars("abc"), &chars("ab")));
}
