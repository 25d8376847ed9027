use rustdash::text::{contains_chars, parse_i64_chars, str_chars, usize_to_string};

fn parse(s: &str) -> Option<i64> {
    parse_i64_chars(&str_chars(s))
}

#[test]
fn decimal_rendering_is_exact() {
    assert_eq!(usize_to_string(0), "0");
    assert_eq!(usize_to_string(7), "7");
    assert_eq!(usize_to_string(10), "10");
    assert_eq!(usize_to_string(42), "42");
    assert_eq!(usize_to_string(1000), "1000");
    assert_eq!(usize_to_string(987654321), "987654321");
    assert_eq!(usize_to_string(usize::MAX), usize::MAX.to_string());
}

#[test]
fn parsing_matches_the_standard_parser() {
    for s in [
        "0",
        "1",
        "42",
        "-5",
        "+7",
        "",
        "-",
        "+",
        "12a",
        " 12",
        "9223372036854775807",
        "9223372036854775808",
        "-9223372036854775808",
        "-9223372036854775809",
        "00123",
        "1431648000000000000",
    ] {
        assert_eq!(parse(s), s.parse::<i64>().ok(), "on input {:?}", s);
    }
}

#[test]
fn substring_search_finds_and_rejects() {
    let hay = str_chars("the quick brown fox");
    assert!(contains_chars(&hay, &str_chars("quick")));
    assert!(contains_chars(&hay, &str_chars("the")));
    assert!(contains_chars(&hay, &str_chars("fox")));
    assert!(contains_chars(&hay, &str_chars("")));
    assert!(!contains_chars(&hay, &str_chars("QUICK")));
    assert!(!contains_chars(&hay, &str_chars("foxes")));
    assert!(!contains_chars(&str_chars(""), &str_chars("a")));
}

#[test]
fn character_collection_handles_wide_characters() {
    let v = str_chars("a\u{00e9}\u{4e16}");
    assert_eq!(v.len(), 3);
    assert_eq!(v[0], 'a');
    assert_eq!(v[1], '\u{00e9}');
    assert_eq!(v[2], '\u{4e16}');
}
