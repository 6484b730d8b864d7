use playback_bot::text::{
    chars_of, contains, equals, join, push_decimal, split_between, split_whitespace, starts_with,
    tail, without,
};

fn texts(all: &[&str]) -> Vec<String> {
    all.iter().map(|text| text.to_string()).collect()
}

#[test]
fn prefixes() {
    assert!(starts_with("abc", ""));
    assert!(starts_with("abc", "ab"));
    assert!(starts_with("abc", "abc"));
    assert!(!starts_with("abc", "abcd"));
    assert!(!starts_with("abc", "b"));
    assert!(starts_with("", ""));
    assert!(starts_with("olá mundo", "olá"));
    assert!(!starts_with("ola mundo", "olá"));
}

#[test]
fn numbers_in_base_ten() {
    for (number, written) in
        [(0, "0"), (7, "7"), (10, "10"), (1920, "1920"), (u64::MAX, "18446744073709551615")]
    {
        let mut out = String::from("n=");
        push_decimal(&mut out, number);
        assert_eq!(out, format!("n={written}"));
    }
}

#[test]
fn occurrences_are_removed_from_left_to_right() {
    assert_eq!(without("aaa", "aa"), "a");
    assert_eq!(without("abcabc", "bc"), "aa");
    assert_eq!(without("abc", ""), "abc");
    assert_eq!(without("abc", "abcd"), "abc");
    assert_eq!(without("abc", "abc"), "");
    assert_eq!(without("", "a"), "");
    assert_eq!(without("ababab", "aba"), "bab");
    assert_eq!(without("olá olá", "lá"), "o o");
}

#[test]
fn occurrences_are_found_anywhere() {
    assert!(contains("abc", ""));
    assert!(contains("", ""));
    assert!(contains("abc", "c"));
    assert!(contains("abc", "abc"));
    assert!(!contains("abc", "ac"));
    assert!(!contains("", "a"));
    assert!(!contains("ab", "abc"));
}

#[test]
fn words_are_the_stretches_without_white_space() {
    assert_eq!(split_whitespace("  a  bc\td\n"), texts(&["a", "bc", "d"]));
    assert_eq!(split_whitespace(""), texts(&[]));
    assert_eq!(split_whitespace(" \u{2003} "), texts(&[]));
    assert_eq!(split_whitespace("a\u{00a0}b"), texts(&["a", "b"]));
    assert_eq!(split_whitespace("a\u{200b}b"), texts(&["a\u{200b}b"]));
    assert_eq!(split_whitespace("olá"), texts(&["olá"]));
}

#[test]
fn texts_are_joined_with_a_separator_between() {
    assert_eq!(join(&texts(&[]), ", "), "");
    assert_eq!(join(&texts(&["a"]), ", "), "a");
    assert_eq!(join(&texts(&["a", "", "b"]), ", "), "a, , b");
    assert_eq!(join(&texts(&["a", "b"]), ""), "ab");
}

#[test]
fn tails_and_characters() {
    assert_eq!(tail(&texts(&["a", "b", "c"]), 1), texts(&["b", "c"]));
    assert_eq!(tail(&texts(&["a"]), 1), texts(&[]));
    assert_eq!(tail(&texts(&["a"]), 0), texts(&["a"]));
    assert_eq!(tail(&texts(&["a"]), 5), texts(&[]));
    assert_eq!(chars_of("olá"), vec!['o', 'l', 'á']);
    assert!(equals("olá", "olá"));
    assert!(!equals("ola", "olá"));
}

#[test]
fn words_between_marked_blanks() {
    let marks = |text: &str| text.chars().map(|c| c == '_').collect::<Vec<bool>>();
    assert_eq!(split_between("_ab__c_", &marks("_ab__c_")), texts(&["ab", "c"]));
    assert_eq!(split_between("abc", &marks("abc")), texts(&["abc"]));
    assert_eq!(split_between("___", &marks("___")), texts(&[]));
    assert_eq!(split_between("a_b", &vec![]), texts(&["a_b"]));
    assert_eq!(split_between("a_b_c", &vec![false, true]), texts(&["a", "b_c"]));
    assert_eq!(split_between("ab", &vec![false, false, true, true]), texts(&["ab"]));
    assert_eq!(split_between("", &vec![true]), texts(&[]));
}
