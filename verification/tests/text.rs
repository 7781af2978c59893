use tmux_scratch::text::{trim_str, trimmed_matches};

#[test]
fn trim_strips_trailing_newline() {
    assert!(trimmed_matches("scratch\n", "scratch"));
}

#[test]
fn trim_strips_surrounding_whitespace() {
    assert_eq!(trim_str(" \t scratch \r\n"), "scratch");
}

#[test]
fn trim_keeps_inner_whitespace() {
    assert_eq!(trim_str("  two words \n"), "two words");
}

#[test]
fn trim_of_all_whitespace_is_empty() {
    assert_eq!(trim_str(" \n\t\r"), "");
}

#[test]
fn trim_of_empty_is_empty() {
    assert_eq!(trim_str(""), "");
}

#[test]
fn trimmed_matches_rejects_other_names() {
    assert!(!trimmed_matches("scratch\n", "work"));
    assert!(!trimmed_matches("work\n", "scratch"));
    assert!(!trimmed_matches("", "scratch"));
}

#[test]
fn trimmed_matches_exact_name() {
    assert!(trimmed_matches("work", "work"));
}

#[test]
fn trim_strips_unicode_whitespace() {
    assert!(trimmed_matches("scratch\u{000C}", "scratch"));
    assert_eq!(trim_str("\u{00A0}scratch\u{2028}"), "scratch");
    assert_eq!(trim_str("\u{3000}x\u{2009}"), "x");
}
