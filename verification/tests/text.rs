use test_tally::text::{decimal_string, split_lines};

#[test]
fn numerals_have_no_leading_zero() {
    assert_eq!(decimal_string(0), "0");
    assert_eq!(decimal_string(7), "7");
    assert_eq!(decimal_string(9), "9");
    assert_eq!(decimal_string(10), "10");
    assert_eq!(decimal_string(99), "99");
    assert_eq!(decimal_string(100), "100");
    assert_eq!(decimal_string(1234567890), "1234567890");
    assert_eq!(decimal_string(4294967295), "4294967295");
}

#[test]
fn every_digit_is_written() {
    assert_eq!(decimal_string(1023456789), "1023456789");
}

#[test]
fn numerals_agree_with_the_standard_ones() {
    let mut n: u32 = 1;
    for _ in 0..200 {
        assert_eq!(decimal_string(n), n.to_string());
        n = n.wrapping_mul(2654435761).wrapping_add(12345);
    }
}

#[test]
fn a_text_splits_at_its_line_feeds() {
    assert_eq!(split_lines(""), vec![""]);
    assert_eq!(split_lines("abc"), vec!["abc"]);
    assert_eq!(split_lines("a\nb"), vec!["a", "b"]);
    assert_eq!(split_lines("a\nb\n"), vec!["a", "b", ""]);
    assert_eq!(split_lines("\n"), vec!["", ""]);
    assert_eq!(split_lines("\n\nx"), vec!["", "", "x"]);
    assert_eq!(split_lines("a\r\nb"), vec!["a\r", "b"]);
    assert_eq!(split_lines("\u{e9}t\u{e9}\n\u{4e2d}\u{6587}"), vec!["\u{e9}t\u{e9}", "\u{4e2d}\u{6587}"]);
}

#[test]
fn splitting_agrees_with_the_standard_split() {
    for text in ["", "\n", "one\ntwo\n\nthree", "\n\n\n", "no feed", "x\n"] {
        let expected: Vec<String> = text.split("\n").map(|line| line.to_string()).collect();
        assert_eq!(split_lines(text), expected);
    }
}
