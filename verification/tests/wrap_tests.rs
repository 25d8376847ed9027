use rustdash::wrap::{truncate_message, wrap_message};

#[test]
fn short_messages_are_not_cut() {
    assert_eq!(truncate_message("short", 40), ("short".to_string(), false));
    let exact = "x".repeat(40);
    assert_eq!(truncate_message(&exact, 40), (exact.clone(), false));
}

#[test]
fn long_messages_lose_their_tail_for_an_ellipsis() {
    let long = "abcdefghijklmnopqrstuvwxyz0123";
    let (cut, was_cut) = truncate_message(long, 25);
    assert_eq!(cut, "abcdefghijklmnopqrstuv...");
    assert!(was_cut);
    assert_eq!(cut.chars().count(), 25);
}

#[test]
fn narrow_columns_never_truncate() {
    let long = "abcdefghijklmnopqrstuvwxyz0123";
    assert_eq!(truncate_message(long, 20), (long.to_string(), false));
    assert_eq!(truncate_message(long, 5), (long.to_string(), false));
}

#[test]
fn short_lines_wrap_to_themselves() {
    assert_eq!(wrap_message("hello world", 80), vec!["hello world"]);
    assert!(wrap_message("", 10).is_empty());
}

#[test]
fn wrapping_breaks_at_a_late_space() {
    assert_eq!(
        wrap_message("abcdefghij klmnop", 12),
        vec!["abcdefghij", "klmnop"]
    );
}

#[test]
fn wrapping_breaks_mid_word_without_a_late_space() {
    assert_eq!(
        wrap_message("abcdefghijklmnop", 10),
        vec!["abcdefghij", "klmnop"]
    );
    // a space in the first half is not used as a break point
    assert_eq!(
        wrap_message("ab cdefghijxyzpq", 10),
        vec!["ab cdefghi", "jxyzpq"]
    );
}

#[test]
fn continuation_lines_lose_their_leading_spaces() {
    // the break lands on the last space inside the width
    assert_eq!(
        wrap_message("aaaaaaaa    bbbb", 10),
        vec!["aaaaaaaa ", "bbbb"]
    );
}
