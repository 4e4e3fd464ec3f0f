use jukebox::text::{
    char_is_whitespace, chars_contain, dash_join, has_words, join_from, split_words, str_contains,
    str_eq, to_chars,
};

fn texts(list: &[&str]) -> Vec<String> {
    list.iter().map(|s| s.to_string()).collect()
}

#[test]
fn white_space_is_what_std_says() {
    for code in 0u32..0x11_0000 {
        if let Some(c) = char::from_u32(code) {
            assert_eq!(char_is_whitespace(c), c.is_whitespace(), "U+{:04X}", code);
        }
    }
}

#[test]
fn white_space_characters_by_name() {
    for c in [' ', '\t', '\n', '\r', '\u{0b}', '\u{0c}', '\u{85}', '\u{a0}', '\u{3000}'] {
        assert!(char_is_whitespace(c));
    }
    for c in ['a', '0', '-', '\u{08}', '\u{0e}', '\u{200b}', '\u{feff}', '\u{1f}'] {
        assert!(!char_is_whitespace(c));
    }
}

#[test]
fn to_chars_gives_each_character() {
    assert_eq!(to_chars(""), Vec::<char>::new());
    assert_eq!(to_chars("añ夏"), vec!['a', 'ñ', '夏']);
}

#[test]
fn split_words_finds_the_words() {
    assert_eq!(split_words(""), Vec::<String>::new());
    assert_eq!(split_words("   "), Vec::<String>::new());
    assert_eq!(split_words("one"), texts(&["one"]));
    assert_eq!(split_words(" one  two\tthree\n"), texts(&["one", "two", "three"]));
    assert_eq!(split_words("a b"), texts(&["a", "b"]));
    assert_eq!(split_words("ab"), texts(&["ab"]));
}

#[test]
fn has_words_tells_blank_lines_apart() {
    assert!(!has_words(""));
    assert!(!has_words(" \t\r\n"));
    assert!(has_words("x"));
    assert!(has_words("  x  "));
}

#[test]
fn str_eq_compares_by_character() {
    assert!(str_eq("", ""));
    assert!(str_eq("play", "play"));
    assert!(!str_eq("play", "Play"));
    assert!(!str_eq("play", "pla"));
    assert!(!str_eq("pla", "play"));
}

#[test]
fn contains_finds_a_substring_anywhere() {
    assert!(str_contains("Road Trip", "Road"));
    assert!(str_contains("Road Trip", "Trip"));
    assert!(str_contains("Road Trip", "d T"));
    assert!(str_contains("Road Trip", "Road Trip"));
    assert!(str_contains("aab", "ab"));
    assert!(str_contains("夏の歌", "の"));
}

#[test]
fn contains_is_case_sensitive() {
    assert!(!str_contains("Road Trip", "road"));
    assert!(!str_contains("Road Trip", "TRIP"));
}

#[test]
fn contains_rejects_what_is_not_there() {
    assert!(!str_contains("Road Trip", "Roads"));
    assert!(!str_contains("Road", "Road Trip"));
    assert!(!str_contains("", "x"));
    assert!(!str_contains("abab", "ba b"));
}

#[test]
fn every_text_contains_the_empty_text() {
    assert!(str_contains("", ""));
    assert!(str_contains("abc", ""));
}

#[test]
fn contains_agrees_with_std() {
    let hays = ["", "a", "ab", "aab", "abcabc", "mississippi", "Road Trip", "ññ夏"];
    let needles = ["", "a", "b", "ab", "abc", "ssi", "ssip", "pp", "ip ", "ñ夏", "夏ñ"];
    for hay in hays {
        for needle in needles {
            assert_eq!(str_contains(hay, needle), hay.contains(needle), "{:?} in {:?}", needle, hay);
            assert_eq!(chars_contain(&to_chars(hay), &to_chars(needle)), hay.contains(needle));
        }
    }
}

#[test]
fn join_from_puts_the_separator_between_parts() {
    let parts = texts(&["playlist", "Road", "Trip", "Mix"]);
    assert_eq!(join_from(&parts, 0, " "), "playlist Road Trip Mix");
    assert_eq!(join_from(&parts, 1, " "), "Road Trip Mix");
    assert_eq!(join_from(&parts, 3, " "), "Mix");
    assert_eq!(join_from(&parts, 4, " "), "");
    assert_eq!(join_from(&parts, 5, " "), "");
    assert_eq!(join_from(&parts, 2, ", "), "Trip, Mix");
    assert_eq!(join_from(&Vec::new(), 0, " "), "");
}

#[test]
fn dash_join_puts_a_dash_between_two_texts() {
    assert_eq!(dash_join("Blue Train", "John Coltrane"), "Blue Train - John Coltrane");
    assert_eq!(dash_join("", ""), " - ");
}
