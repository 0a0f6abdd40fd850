use sutra_community::text::{
    concat2, decimal_string, prefix_bytes, replace_char, same_text, split_words, trim,
    white_space,
};

#[test]
fn trim_removes_unicode_whitespace_at_both_ends() {
    assert_eq!(trim("  hello world \n\t"), "hello world");
    assert_eq!(trim("\u{3000}x\u{a0}"), "x");
    assert_eq!(trim("   "), "");
    assert_eq!(trim(""), "");
    assert_eq!(trim("a  b"), "a  b");
}

#[test]
fn trim_is_idempotent_on_examples() {
    for s in ["  a ", "\tb\n", "c", " ", "\u{2003}d\u{2003}"] {
        assert_eq!(trim(trim(s)), trim(s));
        assert_eq!(trim(s), s.trim());
    }
}

#[test]
fn white_space_matches_std() {
    for c in ['\t', '\n', '\u{b}', '\u{c}', '\r', ' ', '\u{85}', '\u{a0}', '\u{1680}', '\u{2000}',
        '\u{200a}', '\u{2028}', '\u{2029}', '\u{202f}', '\u{205f}', '\u{3000}', 'a', '\u{200b}', '0']
    {
        assert_eq!(white_space(c), c.is_whitespace());
    }
}

#[test]
fn replace_char_replaces_every_occurrence() {
    assert_eq!(replace_char("it's o'clock", '\'', "''"), "it''s o''clock");
    assert_eq!(replace_char("net.ipv4.ip_forward", '.', "-"), "net-ipv4-ip_forward");
    assert_eq!(replace_char("plain", '"', "\"\""), "plain");
    assert_eq!(replace_char("", 'x', "y"), "");
    assert_eq!(replace_char("xx", 'x', ""), "");
}

#[test]
fn decimal_string_renders_like_display() {
    for n in [0i64, 7, 10, 300, 6379, -1, -42, i64::MAX, i64::MIN] {
        assert_eq!(decimal_string(n), n.to_string());
    }
}

#[test]
fn split_words_matches_split_whitespace() {
    for s in ["/etc /home", "  /a\t/b\n/c  ", "", "   ", "one"] {
        let expected: Vec<String> = s.split_whitespace().map(|w| w.to_string()).collect();
        assert_eq!(split_words(s), expected);
    }
}

#[test]
fn prefix_bytes_takes_the_first_bytes() {
    assert_eq!(prefix_bytes("short", 60), "short");
    let long = "x".repeat(70);
    assert_eq!(prefix_bytes(&long, 60), &long[..60]);
    assert_eq!(prefix_bytes("héllo", 3), "hé");
}

#[test]
fn same_text_and_concat() {
    assert!(same_text("abc", "abc"));
    assert!(!same_text("abc", "abd"));
    assert_eq!(concat2("a", "b"), "ab");
}
