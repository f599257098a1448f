use amail_api::access::names_system_sender;
use amail_api::text::{
    before_first, before_last_segment, behind_last, ends_with, has_char, occurrences, split,
    starts_with, trim, unescape,
};

#[test]
fn segments_are_cut_at_separators() {
    assert_eq!(before_first("a@b@c", '@'), "a");
    assert_eq!(behind_last("a@b@c", '@'), "c");
    assert_eq!(before_last_segment("a@b@c", '@'), "b");
    assert_eq!(before_first("abc", '@'), "abc");
    assert_eq!(behind_last("abc", '@'), "abc");
    assert_eq!(before_last_segment("abc", '@'), "");
    assert_eq!(split("a,,é,", ','), vec!["a", "", "é", ""]);
    assert_eq!(split("", ','), vec![""]);
}

#[test]
fn white_space_is_trimmed() {
    assert_eq!(trim("\u{a0}\t é x \u{3000}\n"), "é x");
    assert_eq!(trim(" \r\n "), "");
    assert_eq!(trim("\u{200b}x"), "\u{200b}x");
}

#[test]
fn characters_are_found() {
    assert!(has_char("x@y", '@'));
    assert!(!has_char("", '@'));
    assert_eq!(occurrences("a.b.c", '.'), 2);
    assert!(starts_with("shared-1", "shared-"));
    assert!(!starts_with("shar", "shared-"));
    assert!(ends_with("x.a2a", ".a2a"));
    assert!(!ends_with("a2a", ".a2a"));
}

#[test]
fn the_system_sender_is_known_in_any_case() {
    assert!(names_system_sender("  NoReply@X.com", "noreply@x.COM"));
    assert!(!names_system_sender("noreply@x.com", " noreply@x.com"));
}

#[test]
fn escaped_dots_are_dots() {
    assert_eq!(unescape(r"x\.y\.com"), "x.y.com");
    assert_eq!(unescape(r"a\b.c\"), r"a\b.c\");
    assert_eq!(unescape(r"\\."), r"\.");
    assert_eq!(unescape(""), "");
}
