use snatchr::text::{
    chars_of, contains, ends_with, matches_at, push_chars, push_decimal, push_text, same_chars,
    same_text, starts_with, string_of,
};

fn chars(s: &str) -> Vec<char> {
    s.chars().collect()
}

#[test]
fn chars_and_string_round_trip() {
    for s in ["", "a", "h\u{e9}llo w\u{f6}rld", "\u{1f600} ok"] {
        assert_eq!(chars_of(s), chars(s));
        assert_eq!(string_of(&chars_of(s)), s);
    }
}

#[test]
fn matches_at_checks_one_position() {
    let hay = chars("hello world");
    assert!(matches_at(&hay, &chars("hello"), 0));
    assert!(matches_at(&hay, &chars("world"), 6));
    assert!(!matches_at(&hay, &chars("world"), 5));
    assert!(!matches_at(&hay, &chars("world"), 7));
    assert!(matches_at(&hay, &chars(""), 11));
    assert!(!matches_at(&hay, &chars(""), 12));
    assert!(!matches_at(&hay, &chars("x"), usize::MAX));
}

#[test]
fn starts_and_ends_with() {
    let hay = chars("temp_audio.m4a");
    assert!(starts_with(&hay, &chars("temp_")));
    assert!(starts_with(&hay, &chars("")));
    assert!(!starts_with(&hay, &chars("emp")));
    assert!(ends_with(&hay, &chars(".m4a")));
    assert!(ends_with(&hay, &chars("")));
    assert!(!ends_with(&hay, &chars(".m4")));
    assert!(!starts_with(&chars("ab"), &chars("abc")));
    assert!(!ends_with(&chars("bc"), &chars("abc")));
}

#[test]
fn contains_finds_a_substring_anywhere() {
    let hay = chars("error: Could not find EOCD in file");
    assert!(contains(&hay, &chars("Could not find EOCD")));
    assert!(contains(&hay, &chars("error")));
    assert!(contains(&hay, &chars("file")));
    assert!(contains(&hay, &chars("")));
    assert!(!contains(&hay, &chars("could not find eocd")));
    assert!(!contains(&chars("ab"), &chars("abc")));
    assert!(contains(&chars(""), &chars("")));
}

#[test]
fn same_text_compares_characters() {
    assert!(same_text("cache", "cache"));
    assert!(!same_text("cache", "Cache"));
    assert!(!same_text("cache", "cache "));
    assert!(same_text("", ""));
    assert!(same_chars(&chars("ab"), &chars("ab")));
    assert!(!same_chars(&chars("ab"), &chars("ba")));
}

#[test]
fn push_decimal_writes_numerals() {
    for (n, text) in [
        (0u64, "0"),
        (7, "7"),
        (10, "10"),
        (3000, "3000"),
        (65535, "65535"),
        (u64::MAX, "18446744073709551615"),
    ] {
        let mut out = chars("n=");
        push_decimal(&mut out, n);
        assert_eq!(string_of(&out), format!("n={}", text));
    }
}

#[test]
fn push_text_and_chars_append() {
    let mut out = chars("a");
    push_text(&mut out, "bc");
    push_chars(&mut out, &chars("d\u{e9}"));
    push_text(&mut out, "");
    assert_eq!(string_of(&out), "abcd\u{e9}");
}
