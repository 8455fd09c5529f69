use sentinel_agent::text::{
    chars_of, concat2, concat4, contains_text, decimal, is_blank, owned,
};

#[test]
fn decimal_notation() {
    assert_eq!(decimal(0), "0");
    assert_eq!(decimal(7), "7");
    assert_eq!(decimal(10), "10");
    assert_eq!(decimal(500), "500");
    assert_eq!(decimal(1234567890), "1234567890");
    assert_eq!(decimal(u64::MAX), "18446744073709551615");
}

#[test]
fn substring_search_agrees_with_the_standard_library() {
    let samples = ["", "/", "/home", "/dev/shm", "abcabd", "aaa", "ö/é", "é"];
    for hay in samples {
        for needle in samples {
            assert_eq!(contains_text(hay, needle), hay.contains(needle), "{:?} in {:?}", needle, hay);
        }
    }
    assert!(contains_text("abcabd", "cab"));
    assert!(contains_text("abcabd", "abd"));
    assert!(!contains_text("abcabd", "abe"));
    assert!(!contains_text("ab", "abc"));
}

#[test]
fn blank_agrees_with_trim() {
    let samples =
        ["", " ", "\t\r\n", " a ", "a", "\u{0085}", "\u{00A0}", "\u{1680}", "\u{2000}\u{200A}",
         "\u{2028}\u{2029}", "\u{202F}\u{205F}\u{3000}", "\u{200B}", "\u{FEFF}", "\u{001C}", "\u{000B}\u{000C}"];
    for sample in samples {
        assert_eq!(is_blank(sample), sample.trim().is_empty(), "{:?}", sample);
    }
}

#[test]
fn concatenation() {
    assert_eq!(owned("a"), "a");
    assert_eq!(concat2("a", "b"), "ab");
    assert_eq!(concat2("", ""), "");
    assert_eq!(concat4("a", "b", "c", "d"), "abcd");
    assert_eq!(chars_of("aöb"), vec!['a', 'ö', 'b']);
}
