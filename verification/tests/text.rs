use phoenixd_supervisor::text::{
    char_is_whitespace, chars_of, lines_of, starts_with, string_of, trimmed,
};

fn std_lines(text: &str) -> Vec<String> {
    text.lines().map(|line| line.to_string()).collect()
}

#[test]
fn whitespace_is_the_unicode_property() {
    let mut code: u32 = 0;
    while code <= 0x10FFFF {
        if let Some(c) = char::from_u32(code) {
            assert_eq!(char_is_whitespace(c), c.is_whitespace(), "U+{:04X}", code);
        }
        code += 1;
    }
}

#[test]
fn whitespace_examples() {
    assert!(char_is_whitespace(' '));
    assert!(char_is_whitespace('\t'));
    assert!(char_is_whitespace('\n'));
    assert!(char_is_whitespace('\r'));
    assert!(char_is_whitespace('\u{a0}'));
    assert!(char_is_whitespace('\u{3000}'));
    assert!(!char_is_whitespace('a'));
    assert!(!char_is_whitespace('='));
    assert!(!char_is_whitespace('\u{200b}'));
    assert!(!char_is_whitespace('\u{0}'));
}

#[test]
fn chars_round_trip() {
    let text = "http-password=s\u{e9}cret \u{1f980}";
    let chars = chars_of(text);
    assert_eq!(chars.len(), 22);
    assert_eq!(chars[14], 's');
    assert_eq!(chars[15], '\u{e9}');
    assert_eq!(chars[21], '\u{1f980}');
    assert_eq!(string_of(&chars), text);
    assert_eq!(string_of(&chars_of("")), "");
}

#[test]
fn lines_of_plain_text() {
    assert_eq!(lines_of("one\ntwo\nthree"), vec!["one", "two", "three"]);
}

#[test]
fn lines_of_empty_text_has_no_line() {
    assert_eq!(lines_of(""), Vec::<String>::new());
}

#[test]
fn final_line_ending_is_optional() {
    assert_eq!(lines_of("one\ntwo\n"), vec!["one", "two"]);
    assert_eq!(lines_of("one\ntwo"), vec!["one", "two"]);
    assert_eq!(lines_of("\n"), vec![""]);
}

#[test]
fn empty_lines_are_kept() {
    assert_eq!(lines_of("a\n\nb\n\n"), vec!["a", "", "b", ""]);
}

#[test]
fn carriage_return_before_line_feed_ends_the_line() {
    assert_eq!(lines_of("a\r\nb\r\n"), vec!["a", "b"]);
    assert_eq!(lines_of("a\r\r\nb"), vec!["a\r", "b"]);
}

#[test]
fn lone_carriage_return_is_content() {
    assert_eq!(lines_of("a\rb\nc\r"), vec!["a\rb", "c\r"]);
}

#[test]
fn lines_agree_with_std() {
    let samples = [
        "",
        "\n",
        "\r",
        "\r\n",
        "\n\n",
        "a",
        "a\n",
        "a\r",
        "a\r\n",
        "a\n\r",
        "a\r\n\r\n",
        "\r\r\n",
        "x=1\ny=2\r\nz=3",
        "{\"Name\":\"x\"}\n{\"Name\":\"y\"}\n",
        "caf\u{e9}\n\u{1f980}\r\n",
        " lead\n trail \n",
    ];
    for sample in samples {
        assert_eq!(lines_of(sample), std_lines(sample), "{:?}", sample);
    }
}

#[test]
fn trimmed_removes_outer_whitespace_only() {
    assert_eq!(trimmed("  abc123 \t"), "abc123");
    assert_eq!(trimmed("a b  c"), "a b  c");
    assert_eq!(trimmed("\u{a0}x y\u{2003}\r\n"), "x y");
    assert_eq!(trimmed(""), "");
    assert_eq!(trimmed(" \t\r\n"), "");
    assert_eq!(trimmed("x"), "x");
}

#[test]
fn trimmed_agrees_with_std() {
    let samples = ["", " ", "a", " a", "a ", " a b ", "\t\ta\n", "\u{3000}a\u{85}", " \u{200b} "];
    for sample in samples {
        assert_eq!(trimmed(sample), sample.trim(), "{:?}", sample);
    }
}

#[test]
fn starts_with_compares_the_prefix() {
    assert!(starts_with("http-password=abc", "http-password="));
    assert!(starts_with("http-password=", "http-password="));
    assert!(starts_with("anything", ""));
    assert!(!starts_with("http-password", "http-password="));
    assert!(!starts_with(" http-password=abc", "http-password="));
    assert!(!starts_with("Http-password=abc", "http-password="));
    assert!(!starts_with("", "x"));
}

#[test]
fn no_line_holds_a_line_feed() {
    let samples = ["a\nb", "\n\n\n", "a\r\nb\r\n", "no feed at all", "x\n", "\nx"];
    for sample in samples {
        for line in lines_of(sample) {
            assert!(!line.contains('\n'), "{:?} in {:?}", line, sample);
        }
    }
    assert_eq!(lines_of("no feed at all"), vec!["no feed at all"]);
}
