use chat_broker::text::{split_command, str_eq, to_decimal, trim_str};

#[test]
fn trim_removes_surrounding_unicode_whitespace() {
    assert_eq!(trim_str("  hello  "), "hello");
    assert_eq!(trim_str("\u{a0}\u{3000}hi\u{2028}"), "hi");
    assert_eq!(trim_str("no-op"), "no-op");
    assert_eq!(trim_str("   "), "");
    assert_eq!(trim_str(""), "");
    assert_eq!(trim_str("a  b"), "a  b");
}

#[test]
fn split_takes_the_first_whitespace_character() {
    assert_eq!(split_command("/join Lounge"), ("/join", Some("Lounge")));
    assert_eq!(split_command("/join  Lounge"), ("/join", Some(" Lounge")));
    assert_eq!(split_command("/list"), ("/list", None));
    assert_eq!(split_command("a b c"), ("a", Some("b c")));
    assert_eq!(split_command(""), ("", None));
}

#[test]
fn str_eq_compares_character_for_character() {
    assert!(str_eq("", ""));
    assert!(str_eq("/list", "/list"));
    assert!(!str_eq("/list", "/lists"));
    assert!(!str_eq("/list", "/lisT"));
    assert!(str_eq("\u{3000}", "\u{3000}"));
}

#[test]
fn decimal_rendering_matches_the_usual_notation() {
    assert_eq!(to_decimal(0), "0");
    assert_eq!(to_decimal(7), "7");
    assert_eq!(to_decimal(10), "10");
    assert_eq!(to_decimal(120), "120");
    assert_eq!(to_decimal(usize::MAX), usize::MAX.to_string());
}
