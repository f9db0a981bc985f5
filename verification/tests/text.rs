use gitty::text::{
    char_is_whitespace, chars_of, find_separator, first_line_chars, is_blank_chars, push_spaces,
    skip_chars, split_lines, string_of, trim_chars, trim_end_chars, trim_start_chars,
};

fn text_of(chars: &[char]) -> String {
    chars.iter().collect()
}

fn lines_of(text: &str) -> Vec<String> {
    let chars = chars_of(text);
    split_lines(&chars).into_iter().map(text_of).collect()
}

#[test]
fn whitespace_is_what_the_standard_library_calls_whitespace() {
    let mut code: u32 = 0;
    while code <= 0x10FFFF {
        if let Some(c) = char::from_u32(code) {
            assert_eq!(char_is_whitespace(c), c.is_whitespace(), "code {:x}", code);
        }
        code += 1;
    }
}

#[test]
fn chars_and_strings_convert_both_ways() {
    let chars = chars_of("a\u{e9}\u{1f600} z");
    assert_eq!(chars, vec!['a', '\u{e9}', '\u{1f600}', ' ', 'z']);
    assert_eq!(string_of(&chars), "a\u{e9}\u{1f600} z");
    assert_eq!(chars_of(""), Vec::<char>::new());
    assert_eq!(string_of(&[]), "");
}

#[test]
fn trimming_agrees_with_the_standard_library() {
    let samples = [
        "",
        " ",
        "a",
        "  a  ",
        "\t a b \n",
        "a  ",
        "  a",
        "\u{a0}x\u{2028}",
        " \u{feff} ",
        "\r\n",
        " a \u{3000} b ",
    ];
    for sample in samples {
        let chars = chars_of(sample);
        assert_eq!(text_of(trim_chars(&chars)), sample.trim());
        assert_eq!(text_of(trim_start_chars(&chars)), sample.trim_start());
        assert_eq!(text_of(trim_end_chars(&chars)), sample.trim_end());
        assert_eq!(is_blank_chars(&chars), sample.trim().is_empty());
    }
}

#[test]
fn skipping_beyond_the_end_gives_nothing() {
    let chars = chars_of("abc");
    assert_eq!(text_of(skip_chars(&chars, 0)), "abc");
    assert_eq!(text_of(skip_chars(&chars, 2)), "c");
    assert_eq!(text_of(skip_chars(&chars, 3)), "");
    assert_eq!(text_of(skip_chars(&chars, 4)), "");
}

#[test]
fn lines_agree_with_the_standard_library() {
    let samples = [
        "",
        "a",
        "a\n",
        "a\nb",
        "a\n\nb\n",
        "\n",
        "\n\n",
        "a\r\nb\r\n",
        "a\r",
        "a\rb\n",
        "\r\n",
        "a\n\rb",
        "a\r\r\nb",
        " M x\n?? y",
    ];
    for sample in samples {
        let expected: Vec<String> = sample.lines().map(String::from).collect();
        assert_eq!(lines_of(sample), expected, "lines of {:?}", sample);
    }
}

#[test]
fn lines_end_at_line_feeds() {
    assert_eq!(lines_of("one\ntwo\r\nthree"), vec!["one", "two", "three"]);
    assert_eq!(lines_of("one\n\ntwo\n"), vec!["one", "", "two"]);
    assert_eq!(lines_of("keeps\r"), vec!["keeps\r"]);
}

#[test]
fn first_line_stops_at_the_first_line_feed() {
    assert_eq!(text_of(first_line_chars(&chars_of("one\ntwo\nthree"))), "one");
    assert_eq!(text_of(first_line_chars(&chars_of("one"))), "one");
    assert_eq!(text_of(first_line_chars(&chars_of("\none"))), "");
    assert_eq!(text_of(first_line_chars(&chars_of(""))), "");
}

#[test]
fn separator_is_found_at_its_first_place() {
    assert_eq!(find_separator(&chars_of("a | b | c")), Some(1));
    assert_eq!(find_separator(&chars_of(" | b")), Some(0));
    assert_eq!(find_separator(&chars_of("ab |")), None);
    assert_eq!(find_separator(&chars_of("a|b")), None);
    assert_eq!(find_separator(&chars_of("a |b | c")), Some(4));
    assert_eq!(find_separator(&chars_of("")), None);
    assert_eq!(find_separator(&chars_of(" |")), None);
    assert_eq!(find_separator(&chars_of("\u{e9}\u{e9} | x")), Some(2));
    assert_eq!(find_separator(&chars_of("a | ")), Some(1));
}

#[test]
fn spaces_are_appended() {
    let mut text = String::from("ab");
    push_spaces(&mut text, 3);
    assert_eq!(text, "ab   ");
    push_spaces(&mut text, 0);
    assert_eq!(text, "ab   ");
}
