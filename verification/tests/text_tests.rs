use light_local_router::text::{
    ends_with_char, has_prefix, is_space, same_text, strip_leading, trim, trim_start,
};

#[test]
fn same_text_compares_characters() {
    assert!(same_text("", ""));
    assert!(same_text("host", "host"));
    assert!(!same_text("host", "Host"));
    assert!(!same_text("host", "hos"));
    assert!(!same_text("hos", "host"));
    assert!(same_text("héllo✓", "héllo✓"));
    assert!(!same_text("héllo✓", "héllo✗"));
}

#[test]
fn has_prefix_checks_the_beginning() {
    assert!(has_prefix("/v1/messages", "/v1/messages"));
    assert!(has_prefix("/v1/messages/x", "/v1/messages"));
    assert!(!has_prefix("/v1/message", "/v1/messages"));
    assert!(!has_prefix("x/v1/messages", "/v1/messages"));
    assert!(has_prefix("anything", ""));
    assert!(has_prefix("", ""));
    assert!(!has_prefix("", "a"));
    assert!(has_prefix("ébc", "é"));
}

#[test]
fn ends_with_char_checks_the_last_character() {
    assert!(ends_with_char("a/", '/'));
    assert!(ends_with_char("/", '/'));
    assert!(!ends_with_char("", '/'));
    assert!(!ends_with_char("/a", '/'));
    assert!(ends_with_char("aé", 'é'));
}

#[test]
fn strip_leading_removes_the_whole_run() {
    assert_eq!(strip_leading("/v1/x", '/'), "v1/x");
    assert_eq!(strip_leading("///v1//x/", '/'), "v1//x/");
    assert_eq!(strip_leading("v1/x", '/'), "v1/x");
    assert_eq!(strip_leading("", '/'), "");
    assert_eq!(strip_leading("////", '/'), "");
    assert_eq!(strip_leading("é/é", 'é'), "/é");
}

#[test]
fn trim_start_removes_leading_white_space() {
    assert_eq!(trim_start("  a b  "), "a b  ");
    assert_eq!(trim_start("\t\n a"), "a");
    assert_eq!(trim_start("a"), "a");
    assert_eq!(trim_start(""), "");
    assert_eq!(trim_start("   "), "");
    assert_eq!(trim_start("\u{a0}\u{3000}x"), "x");
}

#[test]
fn trim_removes_white_space_at_both_ends() {
    assert_eq!(trim("  a b  "), "a b");
    assert_eq!(trim("a b"), "a b");
    assert_eq!(trim("\r\n a\t"), "a");
    assert_eq!(trim(""), "");
    assert_eq!(trim(" \t "), "");
    assert_eq!(trim(" é "), "é");
    assert_eq!(trim("x "), "x");
    assert_eq!(trim(" x"), "x");
}

#[test]
fn trimming_agrees_with_std() {
    let samples = [
        "", " ", "a", " a", "a ", " a ", "  a  b  ", "\u{2003}a\u{2003}", "\n\n", "a\nb",
        "\u{85}x\u{1680}",
    ];
    for s in samples {
        assert_eq!(trim(s), s.trim());
        assert_eq!(trim_start(s), s.trim_start());
        assert_eq!(strip_leading(s, ' '), s.trim_start_matches(' '));
    }
}

#[test]
fn white_space_is_what_std_takes_for_it() {
    let mut count = 0;
    for n in 0..=0x10ffffu32 {
        if let Some(c) = char::from_u32(n) {
            assert_eq!(is_space(c), c.is_whitespace(), "U+{:04X}", n);
            if is_space(c) {
                count += 1;
            }
        }
    }
    assert_eq!(count, 25);
}

#[test]
fn white_space_characters() {
    for c in ['\t', '\n', '\u{b}', '\u{c}', '\r', ' ', '\u{85}', '\u{a0}', '\u{1680}',
        '\u{2000}', '\u{200a}', '\u{2028}', '\u{2029}', '\u{202f}', '\u{205f}', '\u{3000}']
    {
        assert!(is_space(c));
    }
    for c in ['a', '0', '-', '\u{8}', '\u{e}', '\u{1f}', '\u{200b}', '\u{feff}', '\u{180e}'] {
        assert!(!is_space(c));
    }
}
