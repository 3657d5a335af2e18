use reef::decimal::parse_usize;
use reef::text::{
    char_is_whitespace, char_width, chars_of, replace_all, split, split_lines, split_words,
    string_of, take_fitting, trim,
};

fn chars(s: &str) -> Vec<char> {
    s.chars().collect()
}

#[test]
fn white_space_is_what_the_standard_library_says() {
    for v in 0..=0x10ffffu32 {
        if let Some(c) = char::from_u32(v) {
            assert_eq!(char_is_whitespace(c), c.is_whitespace(), "U+{:04X}", v);
        }
    }
}

#[test]
fn the_width_of_a_character_is_that_of_its_encoding() {
    for v in 0..=0x10ffffu32 {
        if let Some(c) = char::from_u32(v) {
            assert_eq!(char_width(c), c.len_utf8(), "U+{:04X}", v);
        }
    }
}

#[test]
fn trimming_takes_white_space_from_both_ends() {
    for text in ["", " ", "a", "  a b \t\n", "\u{a0}x\u{3000}", "\u{200b}y ", "\r\n z\u{85}"] {
        assert_eq!(string_of(&trim(&chars(text))), text.trim(), "{:?}", text);
    }
}

#[test]
fn texts_and_character_vectors_convert_both_ways() {
    for text in ["", "plain", "\u{e9}\u{4e2d}\u{1f600} mixed"] {
        assert_eq!(chars_of(text), chars(text));
        assert_eq!(string_of(&chars(text)), text);
    }
}

#[test]
fn splitting_keeps_empty_pieces() {
    let pieces = |text: &str| -> Vec<String> {
        split(&chars(text), '_').iter().map(string_of).collect()
    };
    for text in ["", "_", "a_b", "_a__b_", "none"] {
        let expected: Vec<String> = text.split('_').map(|p| p.to_string()).collect();
        assert_eq!(pieces(text), expected, "{:?}", text);
    }
}

#[test]
fn words_and_lines_are_split_as_the_standard_library_does() {
    for text in ["", "  ", "one", " one  two\tthree\n", "a\nb\r\nc", "a\n\nb\n", "x\r", "\n"] {
        let words: Vec<String> = split_words(&chars(text)).iter().map(string_of).collect();
        let expected: Vec<String> = text.split_whitespace().map(|p| p.to_string()).collect();
        assert_eq!(words, expected, "{:?}", text);
        let lines: Vec<String> = split_lines(&chars(text)).iter().map(string_of).collect();
        let expected: Vec<String> = text.lines().map(|p| p.to_string()).collect();
        assert_eq!(lines, expected, "{:?}", text);
    }
}

#[test]
fn replacing_goes_from_left_to_right_without_overlap() {
    let replaced = |text: &str, from: &str, to: &str| -> String {
        string_of(&replace_all(&chars(text), &chars(from), &chars(to)))
    };
    for (text, from, to) in [("aaaa", "aa", "b"), ("aaa", "aa", "b"), ("x&amp;y", "&amp;", "&"), ("abc", "", "z"), ("abc", "abcd", "z"), ("", "a", "b")] {
        let expected = if from.is_empty() { text.to_string() } else { text.replace(from, to) };
        assert_eq!(replaced(text, from, to), expected);
    }
}

#[test]
fn a_prefix_is_cut_between_characters() {
    let cut = |text: &str, max: usize| -> String { string_of(&take_fitting(&chars(text), max)) };
    assert_eq!(cut("abcdef", 3), "abc");
    assert_eq!(cut("abc", 9), "abc");
    assert_eq!(cut("\u{e9}\u{e9}\u{e9}", 3), "\u{e9}");
    assert_eq!(cut("a\u{4e2d}b", 3), "a");
    assert_eq!(cut("a\u{4e2d}b", 4), "a\u{4e2d}");
    assert_eq!(cut("x", 0), "");
}

#[test]
fn numbers_are_read_as_the_standard_library_reads_them() {
    for text in ["0", "7", "+7", "007", "18446744073709551615", "18446744073709551616", "", "+", "-1", "1_0", " 1", "1 ", "12a", "\u{663}"] {
        assert_eq!(parse_usize(&chars(text)), text.parse::<usize>().ok(), "{:?}", text);
    }
}
