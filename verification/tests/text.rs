//! Text building blocks and orders against the standard library.

use cuda_oxide::order::{insert_number, insert_text, precedes};
use cuda_oxide::text::{blank, decimal_text, is_only_text, is_text, join, same_text, white_space};

#[test]
fn white_space_is_that_of_unicode() {
    for c in '\0'..=char::MAX {
        assert_eq!(white_space(c), c.is_whitespace(), "{:x}", c as u32);
    }
}

#[test]
fn blank_texts_are_those_that_trim_to_nothing() {
    for text in ["", " ", "\t\n\r", "\u{a0}\u{2003}", "a", " a ", "\u{200b}", "."] {
        assert_eq!(blank(text), text.trim().is_empty(), "{text:?}");
    }
}

#[test]
fn numbers_are_spelled_in_decimal() {
    for n in [0, 1, 9, 10, 99, 100, 1039, 4294967295, u64::MAX] {
        assert_eq!(decimal_text(n), n.to_string());
    }
}

#[test]
fn lists_are_joined() {
    let list = |items: &[&str]| items.iter().map(|item| item.to_string()).collect::<Vec<_>>();
    for items in [&[][..], &["a"], &["a", ""], &["", "", ""], &["x", "y", "z"]] {
        assert_eq!(join(&list(items), ", "), items.join(", "));
    }
    assert!(is_only_text(&list(&["f32"]), "f32"));
    assert!(!is_only_text(&list(&["f32", "f32"]), "f32"));
    assert!(!is_text(&None, ""));
    assert!(is_text(&Some("a".to_string()), "a"));
    assert!(!same_text("a", "b"));
}

#[test]
fn texts_are_ordered_as_by_the_standard_library() {
    let texts = ["", "a", "ab", "b", "sm_100", "sm_100a", "sm_90", "\u{ff}", "\u{ffff}", "\u{10000}"];
    for a in texts {
        for b in texts {
            assert_eq!(precedes(a, b), a < b, "{a:?} {b:?}");
        }
    }
    let mut list = Vec::new();
    let mut expected: Vec<String> = Vec::new();
    for text in ["b", "a", "b", "", "sm_90", "sm_100"] {
        insert_text(&mut list, text.to_string());
        expected.push(text.to_string());
    }
    expected.sort();
    expected.dedup();
    assert_eq!(list, expected);
    let mut numbers = Vec::new();
    for n in [3, 1, 3, 2, 0, 9, 1] {
        insert_number(&mut numbers, n);
    }
    assert_eq!(numbers, [0, 1, 2, 3, 9]);
}
