//! Text helpers, held against the standard library.
use cocoa_way::runtime_paths::{entry, file_name, parent, shell_single_quote};
use cocoa_way::text::{
    contains, decimal_text, eq_ignore_ascii_case, has_control, hexadecimal_text, is_whitespace,
    lines, parse_u64, rfind, short_text, sorted_distinct, split, split_once, split_whitespace,
    strip_prefix, to_ascii_lowercase, trim, trim_start_matches,
};

const SAMPLES: [&str; 12] = [
    "",
    " ",
    "plain",
    "  two words\t",
    "a\nb\r\nc",
    "\r\n\r\n",
    "last line\n",
    "\u{3000}wide\u{85}space\u{2028}",
    "Gr\u{fc}n \u{4f60}\u{597d}",
    "a::b:c:",
    "\u{1b}[0m\u{7f}",
    "+007",
];

#[test]
fn white_space_is_that_of_the_standard_library() {
    for code in 0..=0x10ffff_u32 {
        if let Some(c) = char::from_u32(code) {
            assert_eq!(is_whitespace(c), c.is_whitespace(), "{code:x}");
        }
    }
}

#[test]
fn splitting_agrees_with_the_standard_library() {
    for sample in SAMPLES {
        assert_eq!(trim(sample), sample.trim());
        assert_eq!(
            split_whitespace(sample),
            sample.split_whitespace().collect::<Vec<_>>()
        );
        assert_eq!(lines(sample), sample.lines().collect::<Vec<_>>());
        assert_eq!(split(sample, ':'), sample.split(':').collect::<Vec<_>>());
        assert_eq!(split_once(sample, ':'), sample.split_once(':'));
        assert_eq!(rfind(sample, 'a').is_some(), sample.contains('a'));
        assert_eq!(contains(sample, "b:"), sample.contains("b:"));
        assert_eq!(strip_prefix(sample, "a"), sample.strip_prefix("a"));
        assert_eq!(trim_start_matches(sample, "a"), sample.trim_start_matches("a"));
        assert_eq!(has_control(sample), sample.chars().any(char::is_control));
        assert_eq!(to_ascii_lowercase(sample), sample.to_ascii_lowercase());
        assert_eq!(parse_u64(sample), sample.parse::<u64>().ok());
    }
}

#[test]
fn numbers_agree_with_the_standard_library() {
    for value in [0, 7, 10, 99, 100, 4096, u64::MAX] {
        assert_eq!(decimal_text(u128::from(value)), value.to_string());
        assert_eq!(hexadecimal_text(value, 16), format!("{value:016x}"));
        assert_eq!(parse_u64(&value.to_string()), Some(value));
    }
    assert_eq!(parse_u64("18446744073709551616"), None);
    assert_eq!(parse_u64("+"), None);
    assert_eq!(parse_u64("-1"), None);
    assert_eq!(decimal_text(u128::MAX), u128::MAX.to_string());
}

#[test]
fn case_is_ignored_for_ascii_only() {
    assert!(eq_ignore_ascii_case("Apple", "aPPLE"));
    assert!(!eq_ignore_ascii_case("\u{c4}", "\u{e4}"));
}

#[test]
fn short_text_ends_with_dots() {
    assert_eq!(short_text("short", 5), "short");
    assert_eq!(short_text("much longer", 8), "much ...");
}

#[test]
fn a_shortened_text_fits() {
    for most in 3..12 {
        assert!(short_text("\u{4f60}\u{597d} and more", most).chars().count() <= most);
    }
}

#[test]
fn sorting_drops_what_occurs_twice() {
    let words: Vec<String> = ["pear", "apple", "pear", "fig", "Apple"]
        .iter()
        .map(|word| word.to_string())
        .collect();
    assert_eq!(sorted_distinct(&words), ["Apple", "apple", "fig", "pear"]);
}

#[test]
fn paths_agree_with_the_standard_library() {
    for path in [
        "", "/", "a", "/a", "a/b", "/a/b/", "/a//b", "a/..", "..", "/tmp/x.sock", "./a", "a/.",
    ] {
        let whole = std::path::Path::new(path);
        assert_eq!(
            file_name(path),
            whole.file_name().map(|name| name.to_string_lossy().into_owned()),
            "{path}"
        );
        assert_eq!(
            parent(path),
            whole.parent().map(|name| name.display().to_string()),
            "{path}"
        );
    }
    assert_eq!(entry("/tmp", "a.sock"), "/tmp/a.sock");
}

#[test]
fn a_quoted_word_is_one_word_of_a_shell() {
    assert_eq!(shell_single_quote("it's"), "'it'\\''s'");
    assert_eq!(shell_single_quote(""), "''");
}
