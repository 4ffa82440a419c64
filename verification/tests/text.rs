use libaur::text::{
    cut_before, cut_past, cut_past_match, drop_chars, is_white_space, same, starts_with, trim,
};

#[test]
fn cut_before_splits_in_front_of_the_first() {
    assert_eq!(cut_before("ab<cd<e", '<'), ("ab", "<cd<e"));
    assert_eq!(cut_before("<x", '<'), ("", "<x"));
    assert_eq!(cut_before("none", '<'), ("none", ""));
    assert_eq!(cut_before("", '<'), ("", ""));
    assert_eq!(cut_before("\u{e9}\u{e8}<\u{ea}", '<'), ("\u{e9}\u{e8}", "<\u{ea}"));
}

#[test]
fn cut_past_drops_through_the_first() {
    assert_eq!(cut_past("<em>hi</em>", '>'), "hi</em>");
    assert_eq!(cut_past(">", '>'), "");
    assert_eq!(cut_past("no end", '>'), "");
    assert_eq!(cut_past("", '>'), "");
    assert_eq!(cut_past("\u{1f600}>\u{1f601}", '>'), "\u{1f601}");
}

#[test]
fn drop_chars_counts_characters() {
    assert_eq!(drop_chars("<code>x", 6), "x");
    assert_eq!(drop_chars("\u{e9}\u{e8}\u{ea}", 2), "\u{ea}");
    assert_eq!(drop_chars("abc", 0), "abc");
    assert_eq!(drop_chars("abc", 3), "");
    assert_eq!(drop_chars("abc", 4), "");
}

#[test]
fn starts_with_compares_prefixes() {
    assert!(starts_with("<code>x", "<code>"));
    assert!(starts_with("<code>", "<code>"));
    assert!(starts_with("anything", ""));
    assert!(starts_with("", ""));
    assert!(!starts_with("<cod", "<code>"));
    assert!(!starts_with("<Code>", "<code>"));
    assert!(!starts_with("", "<"));
}

#[test]
fn cut_past_match_finds_the_first_place() {
    assert_eq!(cut_past_match("<a href=\"x\" href=\"y\">", "href=\""), "x\" href=\"y\">");
    assert_eq!(cut_past_match("href=\"", "href=\""), "");
    assert_eq!(cut_past_match("hrhref=\"z", "href=\""), "z");
    assert_eq!(cut_past_match("<a name=\"n\">", "href=\""), "<a name=\"n\">");
    assert_eq!(cut_past_match("", "href=\""), "");
    assert_eq!(cut_past_match("abc", ""), "abc");
    assert_eq!(cut_past_match("aab", "ab"), "");
}

#[test]
fn same_compares_texts() {
    assert!(same("aur", "aur"));
    assert!(same("", ""));
    assert!(!same("aur", "aurx"));
    assert!(!same("aurx", "aur"));
    assert!(!same("Aur", "aur"));
}

#[test]
fn trim_drops_white_space_at_both_ends() {
    assert_eq!(trim("  a b \n"), "a b");
    assert_eq!(trim("a"), "a");
    assert_eq!(trim(" \t\r\n"), "");
    assert_eq!(trim(""), "");
    assert_eq!(trim("\u{a0}\u{2003}x\u{3000}"), "x");
    assert_eq!(trim("x  y"), "x  y");
    assert_eq!(trim("\u{e9} "), "\u{e9}");
}

#[test]
fn white_space_is_what_unicode_calls_so() {
    for c in ['\t', '\n', '\u{b}', '\u{c}', '\r', ' ', '\u{85}', '\u{a0}', '\u{1680}'] {
        assert!(is_white_space(c));
    }
    for c in ['\u{2000}', '\u{200a}', '\u{2028}', '\u{2029}', '\u{202f}', '\u{205f}', '\u{3000}'] {
        assert!(is_white_space(c));
    }
    for c in ['a', '0', '\0', '\u{8}', '\u{e}', '\u{180e}', '\u{200b}', '\u{feff}'] {
        assert!(!is_white_space(c));
    }
}

#[test]
fn white_space_agrees_with_the_standard_library_on_every_character() {
    let mut count = 0;
    for n in 0..=0x10ffffu32 {
        if let Some(c) = char::from_u32(n) {
            assert_eq!(is_white_space(c), c.is_whitespace());
            if is_white_space(c) {
                count += 1;
            }
        }
    }
    assert_eq!(count, 25);
}

#[test]
fn trim_agrees_with_the_standard_library() {
    for s in ["", " ", " a ", "\u{2003}a b\u{85}", "a\u{200b} ", "\u{feff}x\n", "\u{3000}\u{1680}"] {
        assert_eq!(trim(s), s.trim());
    }
}
