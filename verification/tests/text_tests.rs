use potd_wallpaper::text::{contains_sub, find_sep, parse_u32, trim};

#[test]
fn parse_u32_reads_plain_numerals() {
    assert_eq!(parse_u32("0"), Some(0));
    assert_eq!(parse_u32("42"), Some(42));
    assert_eq!(parse_u32("1080"), Some(1080));
    assert_eq!(parse_u32("0001920"), Some(1920));
}

#[test]
fn parse_u32_reads_the_largest_value() {
    assert_eq!(parse_u32("4294967295"), Some(u32::MAX));
}

#[test]
fn parse_u32_rejects_overflow() {
    assert_eq!(parse_u32("4294967296"), None);
    assert_eq!(parse_u32("99999999999999999999"), None);
}

#[test]
fn parse_u32_rejects_malformed_input() {
    assert_eq!(parse_u32(""), None);
    assert_eq!(parse_u32(" 42"), None);
    assert_eq!(parse_u32("12a"), None);
    assert_eq!(parse_u32("-1"), None);
    assert_eq!(parse_u32("4 2"), None);
}

#[test]
fn trim_strips_blanks_on_both_sides() {
    assert_eq!(trim("  1920\n"), "1920");
    assert_eq!(trim("\t x \r\n"), "x");
    assert_eq!(trim("plain"), "plain");
    assert_eq!(trim("   "), "");
    assert_eq!(trim(""), "");
}

#[test]
fn contains_sub_finds_substrings() {
    assert!(contains_sub("ubuntu:gnome", "gnome"));
    assert!(contains_sub("gnome", "gnome"));
    assert!(contains_sub("anything", ""));
    assert!(!contains_sub("kde", "gnome"));
    assert!(!contains_sub("gno", "gnome"));
}

#[test]
fn find_sep_locates_the_first_separator() {
    assert_eq!(find_sep("a, b, c", 0), Some(1));
    assert_eq!(find_sep("a, b, c", 2), Some(4));
    assert_eq!(find_sep("a, b, c", 5), None);
    assert_eq!(find_sep("abc", 0), None);
}
