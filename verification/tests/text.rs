use tp_bridge::text::{decimal_string, digit_str, one_line_string, preview, PREVIEW_BYTES};

#[test]
fn digits_are_their_characters() {
    let all: Vec<&str> = (0..10).map(digit_str).collect();
    assert_eq!(all, vec!["0", "1", "2", "3", "4", "5", "6", "7", "8", "9"]);
}

#[test]
fn decimal_of_zero() {
    assert_eq!(decimal_string(0), "0");
}

#[test]
fn decimal_of_small_numbers() {
    assert_eq!(decimal_string(7), "7");
    assert_eq!(decimal_string(10), "10");
    assert_eq!(decimal_string(80), "80");
    assert_eq!(decimal_string(443), "443");
}

#[test]
fn decimal_of_the_default_port() {
    assert_eq!(decimal_string(3000), "3000");
}

#[test]
fn decimal_of_the_largest_port() {
    assert_eq!(decimal_string(65535), "65535");
}

#[test]
fn decimal_agrees_with_the_standard_formatting() {
    for n in 0..=u16::MAX {
        assert_eq!(decimal_string(n), n.to_string());
    }
}

#[test]
fn one_line_replaces_each_line_feed_by_a_space() {
    assert_eq!(one_line_string("a\nb\n\nc"), "a b  c");
    assert_eq!(one_line_string("no line feed"), "no line feed");
    assert_eq!(one_line_string(""), "");
    assert_eq!(one_line_string("tab\tand\rreturn stay"), "tab\tand\rreturn stay");
}

#[test]
fn preview_of_a_short_message_is_the_message_on_one_line() {
    assert_eq!(preview("hello"), "hello");
    assert_eq!(preview("line one\nline two"), "line one line two");
    assert_eq!(preview(""), "");
}

#[test]
fn preview_of_fifty_bytes_is_not_cut() {
    let msg = "x".repeat(50);
    assert_eq!(PREVIEW_BYTES, 50);
    assert_eq!(preview(&msg), msg);
}

#[test]
fn preview_of_fifty_one_bytes_is_cut_to_fifty_and_dots() {
    let msg = "0123456789".repeat(5) + "Z";
    assert_eq!(preview(&msg), "0123456789".repeat(5) + "...");
}

#[test]
fn preview_of_a_long_message_is_on_one_line() {
    let msg = "ab\n".repeat(40);
    let expected = "ab ".repeat(16) + "ab...";
    assert_eq!(preview(&msg), expected);
}

#[test]
fn preview_counts_bytes_not_characters() {
    // 30 characters of two bytes each: 60 bytes, cut after 25 characters.
    let msg = "\u{e9}".repeat(30);
    assert_eq!(preview(&msg), "\u{e9}".repeat(25) + "...");
    // 25 characters of two bytes each: 50 bytes, shown whole.
    let msg = "\u{e9}".repeat(25);
    assert_eq!(preview(&msg), msg);
}

#[test]
fn preview_never_cuts_a_character_in_two() {
    // Byte 50 falls inside the character that starts at byte 49.
    let msg = "x".repeat(49) + "\u{e9}" + "tail";
    assert_eq!(preview(&msg), "x".repeat(49) + "...");
    // Byte 50 falls inside a character of four bytes that starts at byte 47.
    let msg = "x".repeat(47) + "\u{1f600}" + "tail";
    assert_eq!(preview(&msg), "x".repeat(47) + "...");
}
