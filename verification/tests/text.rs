use exchange_bot::text::{
    contains, digit_of, first_two_fields, join, parse_usize, same_text, text_before,
    to_chars, usize_to_string,
};

#[test]
fn parse_usize_reads_plain_digits() {
    assert_eq!(parse_usize("0"), Some(0));
    assert_eq!(parse_usize("4"), Some(4));
    assert_eq!(parse_usize("12"), Some(12));
    assert_eq!(parse_usize("007"), Some(7));
    assert_eq!(parse_usize("1234567890"), Some(1234567890));
}

#[test]
fn parse_usize_takes_a_leading_plus() {
    assert_eq!(parse_usize("+7"), Some(7));
    assert_eq!(parse_usize("+0"), Some(0));
    assert_eq!(parse_usize("++7"), None);
    assert_eq!(parse_usize("+"), None);
}

#[test]
fn parse_usize_refuses_what_is_no_number() {
    assert_eq!(parse_usize(""), None);
    assert_eq!(parse_usize("-"), None);
    assert_eq!(parse_usize("-0"), None);
    assert_eq!(parse_usize("-3"), None);
    assert_eq!(parse_usize("abc"), None);
    assert_eq!(parse_usize("12a"), None);
    assert_eq!(parse_usize(" 12"), None);
    assert_eq!(parse_usize("12 "), None);
    assert_eq!(parse_usize("1.5"), None);
    assert_eq!(parse_usize("１２"), None);
}

#[test]
fn parse_usize_refuses_what_does_not_fit() {
    let largest = usize::MAX.to_string();
    assert_eq!(parse_usize(&largest), Some(usize::MAX));
    let mut too_large = largest.clone();
    too_large.push('0');
    assert_eq!(parse_usize(&too_large), None);
    assert_eq!(parse_usize("99999999999999999999999999999999999999999"), None);
    // One more than the largest.
    let digits: Vec<char> = largest.chars().collect();
    let mut bumped: String = digits[..digits.len() - 1].iter().collect();
    let last = digits[digits.len() - 1].to_digit(10).unwrap();
    if last < 9 {
        bumped.push(char::from_digit(last + 1, 10).unwrap());
        assert_eq!(parse_usize(&bumped), None);
    }
}

#[test]
fn parse_usize_agrees_with_the_standard_library() {
    let samples = [
        "", "+", "-", "0", "00", "+00", "1", "42", "+42", "-42", "4 2", "0x10", "1e3", "18446744073709551615",
        "18446744073709551616", "4294967295", "4294967296", "९", "12३",
    ];
    for sample in samples {
        assert_eq!(parse_usize(sample), sample.parse::<usize>().ok(), "for {:?}", sample);
    }
}

#[test]
fn usize_to_string_writes_decimal_notation() {
    assert_eq!(usize_to_string(0), "0");
    assert_eq!(usize_to_string(4), "4");
    assert_eq!(usize_to_string(10), "10");
    assert_eq!(usize_to_string(12345), "12345");
    assert_eq!(usize_to_string(1000000), "1000000");
    assert_eq!(usize_to_string(usize::MAX), usize::MAX.to_string());
}

#[test]
fn written_numbers_read_back() {
    for n in [0usize, 1, 4, 9, 10, 12, 99, 100, 101, 65535, 4294967295, usize::MAX] {
        assert_eq!(parse_usize(&usize_to_string(n)), Some(n));
    }
}

#[test]
fn digit_of_knows_the_ten_digits() {
    assert_eq!(digit_of('0'), Some(0));
    assert_eq!(digit_of('5'), Some(5));
    assert_eq!(digit_of('9'), Some(9));
    assert_eq!(digit_of('/'), None);
    assert_eq!(digit_of(':'), None);
    assert_eq!(digit_of('a'), None);
    assert_eq!(digit_of('٣'), None);
}

#[test]
fn to_chars_keeps_every_character() {
    assert_eq!(to_chars(""), Vec::<char>::new());
    assert_eq!(to_chars("abc"), vec!['a', 'b', 'c']);
    assert_eq!(to_chars("日本語"), vec!['日', '本', '語']);
}

#[test]
fn join_and_same_text() {
    assert_eq!(join("alice", ":currency_from"), "alice:currency_from");
    assert_eq!(join("", ""), "");
    assert!(same_text("True", "True"));
    assert!(!same_text("True", "true"));
    assert!(!same_text("True", "True "));
}

#[test]
fn contains_finds_a_run_of_characters() {
    assert!(contains("True", "True"));
    assert!(contains("isTrue!", "True"));
    assert!(contains("TTrue", "True"));
    assert!(contains("anything", ""));
    assert!(contains("", ""));
    assert!(!contains("true", "True"));
    assert!(!contains("Tru", "True"));
    assert!(!contains("False", "True"));
    assert!(!contains("", "True"));
    assert!(!contains("T r u e", "True"));
}

#[test]
fn contains_agrees_with_the_standard_library() {
    let texts = ["", "a", "aa", "ab", "aab", "abab", "True", "xTruex", "日本語", "本"];
    for text in texts {
        for pattern in texts {
            assert_eq!(contains(text, pattern), text.contains(pattern), "{:?} in {:?}", pattern, text);
        }
    }
}

#[test]
fn first_two_fields_divides_at_the_separator() {
    assert_eq!(
        first_two_fields("2023-01-01_2023-01-10", '_'),
        ("2023-01-01".to_string(), Some("2023-01-10".to_string()))
    );
    assert_eq!(first_two_fields("2023-01-01", '_'), ("2023-01-01".to_string(), None));
    assert_eq!(first_two_fields("", '_'), ("".to_string(), None));
    assert_eq!(first_two_fields("_", '_'), ("".to_string(), Some("".to_string())));
    assert_eq!(first_two_fields("a_", '_'), ("a".to_string(), Some("".to_string())));
    assert_eq!(first_two_fields("_b", '_'), ("".to_string(), Some("b".to_string())));
    assert_eq!(first_two_fields("a_b_c", '_'), ("a".to_string(), Some("b".to_string())));
    assert_eq!(first_two_fields("a__c", '_'), ("a".to_string(), Some("".to_string())));
    assert_eq!(first_two_fields("日_本", '_'), ("日".to_string(), Some("本".to_string())));
}

#[test]
fn first_two_fields_agrees_with_split() {
    for text in ["", "_", "__", "a", "a_b", "a_b_c_d", "_a_", "2023-01-01_2023-01-10"] {
        let parts: Vec<&str> = text.split('_').collect();
        let (first, second) = first_two_fields(text, '_');
        assert_eq!(Some(first.as_str()), parts.first().copied());
        assert_eq!(second.as_deref(), parts.get(1).copied());
    }
}

#[test]
fn text_before_is_the_order_of_strings() {
    let samples = ["", "a", "b", "ab", "abc", "abd", "2023-01-01", "2023-01-02", "2022-12-31", "Z", "z", "é", "日"];
    for a in samples {
        for b in samples {
            assert_eq!(text_before(&to_chars(a), &to_chars(b)), a < b, "{:?} < {:?}", a, b);
        }
    }
}
