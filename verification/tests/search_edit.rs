use crz_rough::search::{
    char_delete_left, char_insert, char_to_byte, delete_word_left, fuzzy_match,
};
use crz_rough::text::{char_count, chars_of, utf8_width};

#[test]
fn fuzzy_match_in_order() {
    assert!(fuzzy_match("hello world", "hlo"));
    assert!(fuzzy_match("hello world", "hello world"));
    assert!(!fuzzy_match("abc", "acb"));
    assert!(!fuzzy_match("abc", "abcd"));
}

#[test]
fn fuzzy_match_empty_pattern_and_text() {
    assert!(fuzzy_match("", ""));
    assert!(fuzzy_match("abc", ""));
    assert!(!fuzzy_match("", "a"));
}

#[test]
fn fuzzy_match_multibyte() {
    assert!(fuzzy_match("éclair", "écl"));
    assert!(fuzzy_match("naïve", "nïe"));
    assert!(!fuzzy_match("naive", "ï"));
}

#[test]
fn char_to_byte_counts_utf8_widths() {
    let s = "héllo";
    assert_eq!(char_to_byte(s, 0), 0);
    assert_eq!(char_to_byte(s, 1), 1);
    assert_eq!(char_to_byte(s, 2), 3);
    assert_eq!(char_to_byte(s, 5), 6);
    assert_eq!(char_to_byte(s, 10), 6);
    assert_eq!(char_to_byte("a€😀b", 3), 8);
    assert_eq!(char_to_byte("", 0), 0);
}

#[test]
fn utf8_width_matches_std() {
    for c in ['a', 'é', '€', '😀', '\u{7f}', '\u{80}', '\u{7ff}', '\u{800}', '\u{ffff}', '\u{10000}'] {
        assert_eq!(utf8_width(c), c.len_utf8());
    }
}

#[test]
fn chars_and_count() {
    assert_eq!(chars_of("aé😀"), vec!['a', 'é', '😀']);
    assert_eq!(char_count("aé😀"), 3);
    assert_eq!(char_count(""), 0);
}

#[test]
fn char_insert_at_positions() {
    let mut s = String::from("hllo");
    char_insert(&mut s, 1, 'e');
    assert_eq!(s, "hello");
    char_insert(&mut s, 0, '>');
    assert_eq!(s, ">hello");
    char_insert(&mut s, 99, '!');
    assert_eq!(s, ">hello!");
}

#[test]
fn char_insert_multibyte() {
    let mut s = String::from("hé");
    char_insert(&mut s, 2, 'x');
    assert_eq!(s, "héx");
    char_insert(&mut s, 1, 'ü');
    assert_eq!(s, "hüéx");
    let mut e = String::new();
    char_insert(&mut e, 3, '😀');
    assert_eq!(e, "😀");
}

#[test]
fn char_delete_left_cases() {
    let mut s = String::from("hello");
    assert_eq!(char_delete_left(&mut s, 1), 0);
    assert_eq!(s, "ello");
    assert_eq!(char_delete_left(&mut s, 0), 0);
    assert_eq!(s, "ello");
    assert_eq!(char_delete_left(&mut s, 4), 3);
    assert_eq!(s, "ell");
}

#[test]
fn char_delete_left_multibyte_and_past_end() {
    let mut s = String::from("héllo");
    assert_eq!(char_delete_left(&mut s, 2), 1);
    assert_eq!(s, "hllo");
    let mut t = String::from("abc");
    assert_eq!(char_delete_left(&mut t, 10), 9);
    assert_eq!(t, "abc");
    let mut u = String::from("abc");
    assert_eq!(char_delete_left(&mut u, 4), 3);
    assert_eq!(u, "abc");
    assert_eq!(char_delete_left(&mut u, 3), 2);
    assert_eq!(u, "ab");
}

#[test]
fn insert_then_delete_restores() {
    for pos in 0..=4 {
        let mut s = String::from("aé€d");
        char_insert(&mut s, pos, '😀');
        let back = char_delete_left(&mut s, pos + 1);
        assert_eq!(back, pos);
        assert_eq!(s, "aé€d");
    }
}

#[test]
fn delete_word_left_cases() {
    let mut s = String::from("foo bar  ");
    assert_eq!(delete_word_left(&mut s, 9), 4);
    assert_eq!(s, "foo ");

    let mut s = String::from("foo bar");
    assert_eq!(delete_word_left(&mut s, 7), 4);
    assert_eq!(s, "foo ");

    let mut s = String::from("foo bar");
    assert_eq!(delete_word_left(&mut s, 5), 4);
    assert_eq!(s, "foo ar");

    let mut s = String::from("foo");
    assert_eq!(delete_word_left(&mut s, 0), 0);
    assert_eq!(s, "foo");

    let mut s = String::from("  ");
    assert_eq!(delete_word_left(&mut s, 2), 0);
    assert_eq!(s, "");

    let mut s = String::from("ça va");
    assert_eq!(delete_word_left(&mut s, 2), 0);
    assert_eq!(s, " va");
}
