use music_importer::text::{
    decimal, is_whitespace_char, normalize_text, str_ends_with, str_equals, str_starts_with, trim,
};

#[test]
fn normalizes_whitespace() {
    assert_eq!(normalize_text("  a \t b\n\nc  ").as_deref(), Some("a b c"));
    assert_eq!(normalize_text("word").as_deref(), Some("word"));
    assert_eq!(normalize_text(""), None);
    assert_eq!(normalize_text(" \n\t\u{a0}\u{3000} "), None);
    assert_eq!(normalize_text("x\u{2003}y").as_deref(), Some("x y"));
}

#[test]
fn normalizing_twice_changes_nothing() {
    for raw in ["  a  b ", "x", " \u{85}q\u{2029}r ", "Verso 1   Verso 2"] {
        let once = normalize_text(raw).unwrap();
        assert_eq!(normalize_text(&once).as_deref(), Some(once.as_str()));
    }
}

#[test]
fn normalizing_agrees_with_split_whitespace() {
    for raw in ["  a  b ", "é ü\u{1680}ö", "\u{feff}x y", "\u{200b} z"] {
        let expected = raw.split_whitespace().collect::<Vec<_>>().join(" ");
        let got = normalize_text(raw).unwrap_or_default();
        assert_eq!(got, expected);
    }
}

#[test]
fn trims_like_std() {
    for raw in ["  a b  ", "", "   ", "\u{a0}x\u{3000}", "x"] {
        assert_eq!(trim(raw), raw.trim());
        assert_eq!(trim(&trim(raw)), trim(raw));
    }
}

#[test]
fn whitespace_matches_std() {
    for c in ['\t', '\n', ' ', '\u{85}', '\u{a0}', '\u{2007}', '\u{202f}', 'a', '\u{200b}', '\u{feff}'] {
        assert_eq!(is_whitespace_char(c), c.is_whitespace());
    }
}

#[test]
fn prefix_suffix_and_equality() {
    assert!(str_starts_with("/song/x", "/song/"));
    assert!(!str_starts_with("/so", "/song/"));
    assert!(str_ends_with("a.suno.com", ".suno.com"));
    assert!(!str_ends_with("suno.com", ".suno.com"));
    assert!(str_equals("ção", "ção"));
    assert!(!str_equals("a", "ab"));
}

#[test]
fn decimal_text() {
    assert_eq!(decimal(0), "0");
    assert_eq!(decimal(42), "42");
    assert_eq!(decimal(-7), "-7");
    assert_eq!(decimal(i64::MIN), i64::MIN.to_string());
    assert_eq!(decimal(i64::MAX), i64::MAX.to_string());
}

#[test]
fn surrounding_doubled_and_kind_of_whitespace_do_not_matter() {
    for raw in ["a b", "Verso 1 Verso 2", "x"] {
        let expected = normalize_text(raw);
        assert_eq!(normalize_text(&format!(" \n{raw}\t ")), expected);
        assert_eq!(normalize_text(&raw.replace(' ', "  ")), expected);
        assert_eq!(normalize_text(&raw.replace(' ', "\t")), expected);
    }
}
