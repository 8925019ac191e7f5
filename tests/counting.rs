use word_count::word_count;

#[test]
fn test_word_count() {
    assert_eq!(word_count(""), (0, 0, 0));
    assert_eq!(word_count("abc"), (1, 1, 3));
    assert_eq!(word_count("abc\ndef"), (2, 2, 6));
    assert_eq!(word_count("abc def"), (1, 2, 7));
    // Each line feed is a word delimiter and is not itself a character.
    assert_eq!(word_count("abc\ndef\n"), (3, 3, 6));
}

#[test]
fn empty_text_counts_nothing() {
    assert_eq!(word_count(""), (0, 0, 0));
}

#[test]
fn single_word() {
    assert_eq!(word_count("abc"), (1, 1, 3));
}

#[test]
fn two_lines() {
    assert_eq!(word_count("abc\ndef"), (2, 2, 6));
}

#[test]
fn space_is_a_char_and_a_delimiter() {
    assert_eq!(word_count("abc def"), (1, 2, 7));
}

#[test]
fn trailing_line_feed_adds_a_line() {
    assert_eq!(word_count("abc\ndef\n"), (3, 3, 6));
}

#[test]
fn tab_separates_words() {
    assert_eq!(word_count("a\tb"), (1, 2, 3));
}

#[test]
fn consecutive_delimiters_each_count() {
    assert_eq!(word_count("a  \t b"), (1, 5, 6));
    assert_eq!(word_count(" "), (1, 2, 1));
    assert_eq!(word_count("\n\n"), (3, 3, 0));
}

#[test]
fn non_ascii_counts_bytes() {
    // "é" is two bytes in UTF-8, "ℤ" three.
    assert_eq!(word_count("é"), (1, 1, 2));
    assert_eq!(word_count("ℤ x"), (1, 2, 5));
}

#[test]
fn chars_never_exceed_length() {
    for text in ["", "abc", "a\nb\n\n", "\n", "tab\there", "é\nℤ", "  x  "] {
        let (_, _, chars) = word_count(text);
        assert!(chars >= 0);
        assert!(chars as usize <= text.len());
    }
}

#[test]
fn lines_are_line_feeds_plus_one() {
    for text in ["", "abc", "a\nb\n\n", "\n", "x\ny", "no feeds here"] {
        let k = text.bytes().filter(|b| *b == b'\n').count() as i32;
        let expected = k + if text.is_empty() { 0 } else { 1 };
        assert_eq!(word_count(text).0, expected);
    }
}

#[test]
fn counting_twice_gives_the_same_result() {
    let text = String::from("one two\nthree\tfour\n");
    let first = word_count(&text);
    let second = word_count(&text.clone());
    assert_eq!(first, second);
    assert_eq!(first, (3, 5, 17));
}
