use alexandrie::text::{append_decimal, chars_of, decimal_text, digit_char, join_texts};

#[test]
fn decimal_texts() {
    assert_eq!(decimal_text(0), "0");
    assert_eq!(decimal_text(7), "7");
    assert_eq!(decimal_text(1234567890), "1234567890");
    assert_eq!(decimal_text(u64::MAX), "18446744073709551615");
}

#[test]
fn digits_and_appended_numbers() {
    assert_eq!(digit_char(0), '0');
    assert_eq!(digit_char(9), '9');
    let mut s = String::from("page ");
    append_decimal(&mut s, 42);
    assert_eq!(s, "page 42");
}

#[test]
fn chars_of_a_text() {
    assert_eq!(chars_of("héllo"), vec!['h', 'é', 'l', 'l', 'o']);
    assert!(chars_of("").is_empty());
}

#[test]
fn joined_texts() {
    let parts = vec!["a".to_owned(), "b".to_owned(), "c".to_owned()];
    assert_eq!(join_texts(&parts, ", "), "a, b, c");
    assert_eq!(join_texts(&vec!["only".to_owned()], "-"), "only");
    assert_eq!(join_texts(&Vec::new(), "-"), "");
}
