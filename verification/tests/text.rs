use scrapperino::text::{decimal, split_first};

#[test]
fn decimal_of_small_and_large_numbers() {
    assert_eq!(decimal(0), "0");
    assert_eq!(decimal(7), "7");
    assert_eq!(decimal(10), "10");
    assert_eq!(decimal(1234), "1234");
    assert_eq!(decimal(9_007_199_254_740_993), "9007199254740993");
    assert_eq!(decimal(usize::MAX), usize::MAX.to_string());
}

#[test]
fn split_first_at_the_first_separator() {
    assert_eq!(split_first("WiSe-2022/23", '-'), ("WiSe", Some("2022/23")));
    assert_eq!(split_first("a-b-c", '-'), ("a", Some("b-c")));
    assert_eq!(split_first("-x", '-'), ("", Some("x")));
    assert_eq!(split_first("x-", '-'), ("x", Some("")));
    assert_eq!(split_first("-", '-'), ("", Some("")));
}

#[test]
fn split_first_without_separator() {
    assert_eq!(split_first("WiSe", '-'), ("WiSe", None));
    assert_eq!(split_first("", '-'), ("", None));
}

#[test]
fn split_first_counts_characters_not_bytes() {
    assert_eq!(split_first("\u{fc}b\u{e4}-\u{f6}", '-'), ("\u{fc}b\u{e4}", Some("\u{f6}")));
    assert_eq!(split_first("a\u{e4}b", '\u{e4}'), ("a", Some("b")));
}
