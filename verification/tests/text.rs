use ntfs_share_wizard::text::{
    chars_of, concat_str, contains_chars, decimal_string, lowercased, same_chars, signed_decimal_string,
    split_lines, split_on, split_words, string_of, string_of_range, trimmed, white_space,
    push_char,
};

fn strings(v: Vec<Vec<char>>) -> Vec<String> {
    v.iter().map(|c| c.iter().collect()).collect()
}

#[test]
fn lines_follow_std() {
    for text in ["", "a", "a\n", "a\nb", "\n", "a\r\nb\r\n", "a\rb\n\nc\r", "\n\n"] {
        let expected: Vec<String> = text.lines().map(|l| l.to_owned()).collect();
        assert_eq!(strings(split_lines(&chars_of(text))), expected, "{text:?}");
    }
}

#[test]
fn words_follow_std() {
    for text in ["", "  ", "a b", " a\tb \u{3000}c\n", "abc"] {
        let expected: Vec<String> = text.split_whitespace().map(|l| l.to_owned()).collect();
        assert_eq!(strings(split_words(&chars_of(text))), expected, "{text:?}");
    }
}

#[test]
fn pieces_follow_std() {
    for text in ["", ",", "a,b", "ro,", ",,x"] {
        let expected: Vec<String> = text.split(',').map(|l| l.to_owned()).collect();
        assert_eq!(strings(split_on(&chars_of(text), ',')), expected, "{text:?}");
    }
}

#[test]
fn trim_and_case_follow_std() {
    for text in ["", " \t", " a b \r", "\u{a0}x\u{2028}", "ÀbC Dé"] {
        assert_eq!(string_of(&trimmed(&chars_of(text))), text.trim(), "{text:?}");
        assert_eq!(string_of(&lowercased(&chars_of(text))), text.to_ascii_lowercase(), "{text:?}");
    }
    for c in ['a', ' ', '\u{85}', '\u{200b}', '\u{3000}', '\n'] {
        assert_eq!(white_space(c), c.is_whitespace(), "{c:?}");
    }
}

#[test]
fn numbers_in_decimal() {
    assert_eq!(decimal_string(0), "0");
    assert_eq!(decimal_string(1700000000), "1700000000");
    assert_eq!(decimal_string(u64::MAX), u64::MAX.to_string());
    assert_eq!(signed_decimal_string(-1), "-1");
    assert_eq!(signed_decimal_string(i32::MIN), i32::MIN.to_string());
    assert_eq!(signed_decimal_string(203), "203");
}

#[test]
fn building_and_searching() {
    let mut s = "ab".to_owned();
    push_char(&mut s, 'ç');
    assert_eq!(s, "abç");
    assert_eq!(concat_str("x".to_owned(), "yz"), "xyz");
    assert_eq!(string_of_range(&chars_of("hello"), 1, 4), "ell");
    assert!(same_chars(&chars_of("ab"), &chars_of("ab")));
    assert!(!same_chars(&chars_of("ab"), &chars_of("abc")));
    assert!(contains_chars(&chars_of("hello"), &chars_of("ll")));
    assert!(contains_chars(&chars_of("hello"), &chars_of("")));
    assert!(!contains_chars(&chars_of("hel"), &chars_of("hello")));
}
